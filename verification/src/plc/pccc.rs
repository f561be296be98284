//! Protocole PCCC (Programmable Controller Communication Commands) encapsulé
//! dans EtherNet/IP, pour les automates Allen-Bradley MicroLogix et SLC-500 :
//! lecture des adresses de fichiers de données, construction des trames et
//! contrôle des réponses. L'échange sur le réseau est fait par l'application.

use vstd::prelude::*;
use crate::texte::{
    rognage, rogner, decoupage, decouper, vues, entier_decimal, analyser_entier,
    lemme_decoupage_non_vide, ecriture_decimale, ecrire_decimal, lemme_ecriture_decimale,
    lemme_decoupage_concat, lemme_decoupage_sans_separateur, loi_decimal_relu, est_blanc,
    est_chiffre, sans_blancs_debut, sans_blancs_fin,
};

verus! {

// === Constantes du protocole ===

/// Port EtherNet/IP standard.
pub const EIP_PORT: u16 = 44818;

/// Taille de l'en-tête EtherNet/IP.
pub const EIP_HEADER_SIZE: usize = 24;

pub const CMD_REGISTER_SESSION: u16 = 0x0065;
pub const CMD_UNREGISTER_SESSION: u16 = 0x0066;
pub const CMD_SEND_RR_DATA: u16 = 0x006F;

pub const CIP_SERVICE_EXECUTE_PCCC: u8 = 0x4B;
pub const CIP_PCCC_CLASS: u8 = 0x67;

pub const PCCC_CMD_CODE: u8 = 0x0F;
/// Écriture logique typée protégée, trois champs d'adresse.
pub const PCCC_FNC_WRITE: u8 = 0xAA;

/// Fichier d'entiers (INT, 16 bits).
pub const PCCC_FILE_TYPE_N: u8 = 0x89;
/// Fichier binaire.
pub const PCCC_FILE_TYPE_B: u8 = 0x85;
/// Fichier de flottants.
pub const PCCC_FILE_TYPE_F: u8 = 0x8A;

// ---------------------------------------------------------------------------
// Adresse réseau de l'automate
// ---------------------------------------------------------------------------

/// Adresse de connexion : telle quelle si elle porte un port (un « : »),
/// sinon suivie du port EtherNet/IP standard.
pub open spec fn adresse_connexion(address: Seq<char>) -> Seq<char> {
    if address.contains(':') {
        address
    } else {
        address + seq![':'] + ecriture_decimale(EIP_PORT as nat)
    }
}

/// Adresse de connexion à l'automate.
pub fn connect_address(address: &str) -> (r: String)
    ensures
        r@ == adresse_connexion(address@),
{
    let n = address.unicode_len();
    let mut i: usize = 0;
    while i < n && address.get_char(i) != ':'
        invariant
            i <= n,
            n == address@.len(),
            forall|j: int| 0 <= j < i ==> address@[j] != ':',
        decreases n - i,
    {
        i = i + 1;
    }
    if i < n {
        assert(address@[i as int] == ':');
        String::from_str(address)
    } else {
        proof {
            reveal_strlit(":");
        }
        let port = ecrire_decimal(EIP_PORT as u64);
        let r = String::from_str(address).concat(":").concat(port.as_str());
        assert(r@ =~= address@ + seq![':'] + ecriture_decimale(EIP_PORT as nat));
        r
    }
}

// ---------------------------------------------------------------------------
// Adresses de fichiers de données
// ---------------------------------------------------------------------------

/// Adresse d'un fichier de données PCCC (ex : N7:0, N150:10, B3:0/5).
#[derive(Debug, Clone, Copy, PartialEq, Eq, Structural)]
pub struct PcccAddress {
    pub file_type: u8,
    pub file_number: u8,
    pub element_number: u8,
    pub sub_element: u8,
}

/// Raison du refus d'une adresse ; le texte fautif accompagne l'erreur.
#[derive(Debug, PartialEq)]
pub enum ErreurAdresse {
    Vide,
    TypeNonSupporte(char),
    FormatInvalide(String),
    NumeroFichierInvalide(String),
    NumeroElementInvalide(String),
    SousElementInvalide(String),
}

/// Vue mathématique d'une [`ErreurAdresse`].
pub enum ErreurAdresseVue {
    Vide,
    TypeNonSupporte(char),
    FormatInvalide(Seq<char>),
    NumeroFichierInvalide(Seq<char>),
    NumeroElementInvalide(Seq<char>),
    SousElementInvalide(Seq<char>),
}

impl View for ErreurAdresse {
    type V = ErreurAdresseVue;

    open spec fn view(&self) -> ErreurAdresseVue {
        match self {
            ErreurAdresse::Vide => ErreurAdresseVue::Vide,
            ErreurAdresse::TypeNonSupporte(c) => ErreurAdresseVue::TypeNonSupporte(*c),
            ErreurAdresse::FormatInvalide(s) => ErreurAdresseVue::FormatInvalide(s@),
            ErreurAdresse::NumeroFichierInvalide(s) => ErreurAdresseVue::NumeroFichierInvalide(s@),
            ErreurAdresse::NumeroElementInvalide(s) => ErreurAdresseVue::NumeroElementInvalide(s@),
            ErreurAdresse::SousElementInvalide(s) => ErreurAdresseVue::SousElementInvalide(s@),
        }
    }
}

/// `char::to_ascii_uppercase`.
pub open spec fn majuscule_ascii(c: char) -> char {
    if 'a' <= c && c <= 'z' {
        ((c as int) - 32) as char
    } else {
        c
    }
}

/// Code PCCC du type de fichier désigné par une lettre majuscule.
pub open spec fn code_type_fichier(l: char) -> Option<u8> {
    if l == 'N' {
        Some(PCCC_FILE_TYPE_N)
    } else if l == 'B' {
        Some(PCCC_FILE_TYPE_B)
    } else if l == 'F' {
        Some(PCCC_FILE_TYPE_F)
    } else {
        None
    }
}

/// Lecture d'une adresse `<type><fichier>:<élément>[/<sous-élément>]`, blancs
/// de bord ignorés, lettre de type sans casse. Au-delà d'un second `/`, le
/// reste du texte n'est pas lu.
pub open spec fn analyse_adresse(s: Seq<char>) -> Result<PcccAddress, ErreurAdresseVue> {
    let t = rognage(s);
    if t.len() == 0 {
        Err(ErreurAdresseVue::Vide)
    } else {
        let l = majuscule_ascii(t[0]);
        match code_type_fichier(l) {
            None => Err(ErreurAdresseVue::TypeNonSupporte(l)),
            Some(file_type) => {
                let parts = decoupage(t.drop_first(), ':');
                if parts.len() != 2 {
                    Err(ErreurAdresseVue::FormatInvalide(t))
                } else {
                    match entier_decimal(parts[0], 255) {
                        None => Err(ErreurAdresseVue::NumeroFichierInvalide(parts[0])),
                        Some(file_number) => {
                            let elems = decoupage(parts[1], '/');
                            match entier_decimal(elems[0], 255) {
                                None => Err(ErreurAdresseVue::NumeroElementInvalide(elems[0])),
                                Some(element_number) => {
                                    if elems.len() > 1 {
                                        match entier_decimal(elems[1], 255) {
                                            None => Err(
                                                ErreurAdresseVue::SousElementInvalide(elems[1]),
                                            ),
                                            Some(sub_element) => Ok(
                                                PcccAddress {
                                                    file_type,
                                                    file_number: file_number as u8,
                                                    element_number: element_number as u8,
                                                    sub_element: sub_element as u8,
                                                },
                                            ),
                                        }
                                    } else {
                                        Ok(
                                            PcccAddress {
                                                file_type,
                                                file_number: file_number as u8,
                                                element_number: element_number as u8,
                                                sub_element: 0,
                                            },
                                        )
                                    }
                                },
                            }
                        },
                    }
                }
            },
        }
    }
}

fn majuscule_ascii_exec(c: char) -> (r: char)
    ensures
        r == majuscule_ascii(c),
{
    if 'a' <= c && c <= 'z' {
        ((c as u8) - 32) as char
    } else {
        c
    }
}

fn lire_octet(s: &str) -> (r: Option<u8>)
    ensures
        match r {
            Some(v) => entier_decimal(s@, 255) == Some(v as nat),
            None => entier_decimal(s@, 255) is None,
        },
{
    match analyser_entier(s, 255) {
        Some(v) => Some(v as u8),
        None => None,
    }
}

impl PcccAddress {
    /// Lit une adresse au format "N7:0", "N150:10", "B3:0/5", "F8:0".
    pub fn parse(address: &str) -> (r: Result<PcccAddress, ErreurAdresse>)
        ensures
            match r {
                Ok(a) => analyse_adresse(address@) == Ok::<PcccAddress, ErreurAdresseVue>(a),
                Err(e) => analyse_adresse(address@) == Err::<PcccAddress, ErreurAdresseVue>(e@),
            },
    {
        let t = rogner(address);
        if t.is_empty() {
            return Err(ErreurAdresse::Vide);
        }
        let l = majuscule_ascii_exec(t.get_char(0));
        let file_type = if l == 'N' {
            PCCC_FILE_TYPE_N
        } else if l == 'B' {
            PCCC_FILE_TYPE_B
        } else if l == 'F' {
            PCCC_FILE_TYPE_F
        } else {
            return Err(ErreurAdresse::TypeNonSupporte(l));
        };
        let n = t.unicode_len();
        let reste = t.substring_char(1, n);
        assert(reste@ =~= t@.drop_first());
        let parts = decouper(reste, ':');
        if parts.len() != 2 {
            return Err(ErreurAdresse::FormatInvalide(String::from_str(t)));
        }
        assert(parts[0]@ == vues(parts@)[0]);
        assert(parts[1]@ == vues(parts@)[1]);
        let file_number = match lire_octet(parts[0].as_str()) {
            Some(v) => v,
            None => {
                return Err(ErreurAdresse::NumeroFichierInvalide(parts[0].clone()));
            },
        };
        let elems = decouper(parts[1].as_str(), '/');
        proof {
            lemme_decoupage_non_vide(parts[1]@, '/');
        }
        assert(elems[0]@ == vues(elems@)[0]);
        let element_number = match lire_octet(elems[0].as_str()) {
            Some(v) => v,
            None => {
                return Err(ErreurAdresse::NumeroElementInvalide(elems[0].clone()));
            },
        };
        let sub_element = if elems.len() > 1 {
            assert(elems[1]@ == vues(elems@)[1]);
            match lire_octet(elems[1].as_str()) {
                Some(v) => v,
                None => {
                    return Err(ErreurAdresse::SousElementInvalide(elems[1].clone()));
                },
            }
        } else {
            0
        };
        Ok(PcccAddress { file_type, file_number, element_number, sub_element })
    }
}

// ---------------------------------------------------------------------------
// Trames
// ---------------------------------------------------------------------------

/// Les deux octets d'un entier de 16 bits, poids faible en tête.
pub open spec fn octets_u16(v: u16) -> Seq<u8> {
    seq![(v % 256) as u8, (v / 256) as u8]
}

/// Les quatre octets d'un entier de 32 bits, poids faible en tête.
pub open spec fn octets_u32(v: u32) -> Seq<u8> {
    seq![
        (v % 256) as u8,
        ((v / 256) % 256) as u8,
        ((v / 65536) % 256) as u8,
        (v / 16777216) as u8,
    ]
}

/// Entier de 16 bits lu poids faible en tête.
pub open spec fn valeur_u16(b0: u8, b1: u8) -> nat {
    (b0 + b1 * 256) as nat
}

/// Entier de 32 bits lu poids faible en tête.
pub open spec fn valeur_u32(b0: u8, b1: u8, b2: u8, b3: u8) -> nat {
    (b0 + b1 * 256 + b2 * 65536 + b3 * 16777216) as nat
}

/// Contexte d'émetteur « _surv___ ».
pub open spec fn contexte_emetteur() -> Seq<u8> {
    seq![0x5f, 0x73, 0x75, 0x72, 0x76, 0x5f, 0x5f, 0x5f]
}

/// Trame EtherNet/IP : commande, longueur des données (sur 16 bits), session,
/// statut nul, contexte d'émetteur, options nulles, puis les données.
pub open spec fn trame_eip(commande: u16, session: u32, donnees: Seq<u8>) -> Seq<u8> {
    octets_u16(commande) + octets_u16((donnees.len() % 65536) as u16) + octets_u32(session)
        + octets_u32(0) + contexte_emetteur() + octets_u32(0) + donnees
}

/// Données d'une requête Send RR Data : interface nulle, délai 10, deux
/// éléments (adresse nulle, puis données non connectées portant le message CIP).
pub open spec fn donnees_rr(message_cip: Seq<u8>) -> Seq<u8> {
    octets_u32(0) + octets_u16(10) + octets_u16(2) + octets_u16(0) + octets_u16(0) + octets_u16(
        0xB2,
    ) + octets_u16((message_cip.len() % 65536) as u16) + message_cip
}

/// Message CIP « Execute PCCC » portant une écriture typée d'un INT.
pub open spec fn message_ecriture_int(transaction: u16, a: PcccAddress, valeur: i16) -> Seq<u8> {
    seq![
        CIP_SERVICE_EXECUTE_PCCC,
        0x02,
        0x20,
        CIP_PCCC_CLASS,
        0x24,
        0x01,
        0x07,
        0x09,
        0x10,
        0x01,
        0x02,
        0x03,
        0x04,
        PCCC_CMD_CODE,
        0x00,
    ] + octets_u16(transaction) + seq![
        PCCC_FNC_WRITE,
        0x02,
        a.file_number,
        a.file_type,
        a.element_number,
        a.sub_element,
    ] + octets_u16(valeur as u16)
}

fn ajouter_u16(v: &mut Vec<u8>, x: u16)
    ensures
        final(v)@ == old(v)@ + octets_u16(x),
{
    v.push((x % 256) as u8);
    v.push((x / 256) as u8);
    assert(final(v)@ =~= old(v)@ + octets_u16(x));
}

fn ajouter_u32(v: &mut Vec<u8>, x: u32)
    ensures
        final(v)@ == old(v)@ + octets_u32(x),
{
    v.push((x % 256) as u8);
    v.push(((x / 256) % 256) as u8);
    v.push(((x / 65536) % 256) as u8);
    v.push((x / 16777216) as u8);
    assert(final(v)@ =~= old(v)@ + octets_u32(x));
}

fn ajouter_tout(v: &mut Vec<u8>, donnees: &[u8])
    ensures
        final(v)@ == old(v)@ + donnees@,
{
    let mut i: usize = 0;
    while i < donnees.len()
        invariant
            i <= donnees@.len(),
            v@ == old(v)@ + donnees@.subrange(0, i as int),
        decreases donnees@.len() - i,
    {
        v.push(donnees[i]);
        assert(donnees@.subrange(0, i + 1) =~= donnees@.subrange(0, i as int).push(donnees@[i as int]));
        i = i + 1;
    }
    assert(donnees@.subrange(0, donnees@.len() as int) =~= donnees@);
}

/// En-tête EtherNet/IP suivi des données.
pub fn build_eip_header(command: u16, session: u32, data: &[u8]) -> (r: Vec<u8>)
    ensures
        r@ == trame_eip(command, session, data@),
{
    let mut header: Vec<u8> = Vec::new();
    ajouter_u16(&mut header, command);
    ajouter_u16(&mut header, (data.len() % 65536) as u16);
    ajouter_u32(&mut header, session);
    ajouter_u32(&mut header, 0);
    header.push(0x5f);
    header.push(0x73);
    header.push(0x75);
    header.push(0x72);
    header.push(0x76);
    header.push(0x5f);
    header.push(0x5f);
    header.push(0x5f);
    ajouter_u32(&mut header, 0);
    ajouter_tout(&mut header, data);
    assert(header@ =~= trame_eip(command, session, data@));
    header
}

/// Données d'une requête Send RR Data portant `cip_message`.
pub fn build_send_rr_data(cip_message: &[u8]) -> (r: Vec<u8>)
    ensures
        r@ == donnees_rr(cip_message@),
{
    let mut data: Vec<u8> = Vec::new();
    ajouter_u32(&mut data, 0);
    ajouter_u16(&mut data, 10);
    ajouter_u16(&mut data, 2);
    ajouter_u16(&mut data, 0);
    ajouter_u16(&mut data, 0);
    ajouter_u16(&mut data, 0xB2);
    ajouter_u16(&mut data, (cip_message.len() % 65536) as u16);
    ajouter_tout(&mut data, cip_message);
    assert(data@ =~= donnees_rr(cip_message@));
    data
}

/// Message CIP d'écriture d'un INT à l'adresse donnée.
pub fn build_write_int_message(transaction: u16, address: &PcccAddress, value: i16) -> (r: Vec<
    u8,
>)
    ensures
        r@ == message_ecriture_int(transaction, *address, value),
        r@.len() == 25,
        r@[23] == (value as u16) % 256,
        r@[24] == (value as u16) / 256,
{
    proof {
        loi_valeur_poids_faible(transaction, *address, value);
    }
    let mut m: Vec<u8> = Vec::new();
    m.push(CIP_SERVICE_EXECUTE_PCCC);
    m.push(0x02);
    m.push(0x20);
    m.push(CIP_PCCC_CLASS);
    m.push(0x24);
    m.push(0x01);
    m.push(0x07);
    m.push(0x09);
    m.push(0x10);
    m.push(0x01);
    m.push(0x02);
    m.push(0x03);
    m.push(0x04);
    m.push(PCCC_CMD_CODE);
    m.push(0x00);
    ajouter_u16(&mut m, transaction);
    m.push(PCCC_FNC_WRITE);
    m.push(0x02);
    m.push(address.file_number);
    m.push(address.file_type);
    m.push(address.element_number);
    m.push(address.sub_element);
    ajouter_u16(&mut m, value as u16);
    assert(m@ =~= message_ecriture_int(transaction, *address, value));
    m
}

/// Trame d'enregistrement de session (version de protocole 1, options nulles).
pub fn register_session_packet() -> (r: Vec<u8>)
    ensures
        r@ == trame_eip(CMD_REGISTER_SESSION, 0, seq![0x01u8, 0x00, 0x00, 0x00]),
{
    let payload: [u8; 4] = [0x01, 0x00, 0x00, 0x00];
    let r = build_eip_header(CMD_REGISTER_SESSION, 0, &payload);
    assert(payload@ =~= seq![0x01u8, 0x00, 0x00, 0x00]);
    r
}

// ---------------------------------------------------------------------------
// Réponses
// ---------------------------------------------------------------------------

/// Refus d'une réponse de l'automate.
#[derive(Debug, Clone, Copy, PartialEq, Eq, Structural)]
pub enum ErreurPccc {
    /// Réponse à l'enregistrement de session plus courte que l'en-tête.
    ReponseSessionTropCourte,
    /// L'automate a rendu une session nulle.
    SessionRefusee,
    /// Statut EtherNet/IP non nul.
    StatutEip(u32),
    /// Réponse à l'écriture trop courte (sa longueur).
    ReponseTropCourte(usize),
    /// Octet de réponse CIP sans le bit de réponse.
    ReponseCipInvalide(u8),
    /// Statut CIP non nul.
    StatutCip(u8),
    /// Statut PCCC non nul : commande refusée par l'automate.
    StatutPccc(u8),
}

/// Session que rend une réponse à l'enregistrement.
pub open spec fn session_lue(r: Seq<u8>) -> Result<u32, ErreurPccc> {
    if r.len() < EIP_HEADER_SIZE {
        Err(ErreurPccc::ReponseSessionTropCourte)
    } else {
        let h = valeur_u32(r[4], r[5], r[6], r[7]);
        if h == 0 {
            Err(ErreurPccc::SessionRefusee)
        } else {
            Ok(h as u32)
        }
    }
}

fn lire_u32(r: &[u8], i: usize) -> (v: u32)
    requires
        i + 4 <= r@.len(),
    ensures
        v as nat == valeur_u32(r@[i as int], r@[i + 1], r@[i + 2], r@[i + 3]),
{
    (r[i] as u32) + (r[i + 1] as u32) * 256 + (r[i + 2] as u32) * 65536 + (r[i + 3] as u32)
        * 16777216
}

/// Lit la session rendue par l'automate en réponse à l'enregistrement.
pub fn read_session_handle(response: &[u8]) -> (r: Result<u32, ErreurPccc>)
    ensures
        r == session_lue(response@),
{
    if response.len() < EIP_HEADER_SIZE {
        return Err(ErreurPccc::ReponseSessionTropCourte);
    }
    let h = lire_u32(response, 4);
    if h == 0 {
        Err(ErreurPccc::SessionRefusee)
    } else {
        Ok(h)
    }
}

/// Ce que dit un en-tête de réponse : la longueur des données qui le suivent,
/// ou le statut d'erreur EtherNet/IP.
pub open spec fn entete_lu(h: Seq<u8>) -> Result<usize, ErreurPccc> {
    let statut = valeur_u32(h[8], h[9], h[10], h[11]);
    if statut != 0 {
        Err(ErreurPccc::StatutEip(statut as u32))
    } else {
        Ok(valeur_u16(h[2], h[3]) as usize)
    }
}

/// Contrôle l'en-tête de 24 octets d'une réponse et rend la longueur des
/// données qui le suivent.
pub fn read_eip_header(header: &[u8]) -> (r: Result<usize, ErreurPccc>)
    requires
        header@.len() == EIP_HEADER_SIZE,
    ensures
        r == entete_lu(header@),
{
    let longueur = (header[2] as usize) + (header[3] as usize) * 256;
    let statut = lire_u32(header, 8);
    if statut != 0 {
        Err(ErreurPccc::StatutEip(statut))
    } else {
        Ok(longueur)
    }
}

/// Position du statut PCCC dans la réponse à une écriture.
pub const PCCC_STS_OFFSET: usize = 52;

/// Verdict sur la réponse complète (en-tête compris) à une écriture.
pub open spec fn verdict_reponse(r: Seq<u8>) -> Result<(), ErreurPccc> {
    if r.len() < 42 {
        Err(ErreurPccc::ReponseTropCourte(r.len() as usize))
    } else if r[40] & 0x80 == 0 {
        Err(ErreurPccc::ReponseCipInvalide(r[40]))
    } else if r[42] != 0 {
        Err(ErreurPccc::StatutCip(r[42]))
    } else if r.len() > PCCC_STS_OFFSET && r[PCCC_STS_OFFSET as int] != 0 {
        Err(ErreurPccc::StatutPccc(r[PCCC_STS_OFFSET as int]))
    } else {
        Ok(())
    }
}

/// Contrôle la réponse à une écriture. Une réponse de 42 octets exactement
/// dont l'octet 40 porte le bit de réponse n'a pas d'octet 42 à lire : elle
/// est exclue.
pub fn check_pccc_response(response: &[u8]) -> (r: Result<(), ErreurPccc>)
    requires
        !(response@.len() == 42 && response@[40] & 0x80 != 0),
    ensures
        r == verdict_reponse(response@),
{
    if response.len() < 42 {
        return Err(ErreurPccc::ReponseTropCourte(response.len()));
    }
    let service_reply = response[40];
    if service_reply & 0x80 == 0 {
        return Err(ErreurPccc::ReponseCipInvalide(service_reply));
    }
    let cip_status = response[42];
    if cip_status != 0 {
        return Err(ErreurPccc::StatutCip(cip_status));
    }
    if response.len() > PCCC_STS_OFFSET {
        let pccc_status = response[PCCC_STS_OFFSET];
        if pccc_status != 0 {
            return Err(ErreurPccc::StatutPccc(pccc_status));
        }
    }
    Ok(())
}

// ---------------------------------------------------------------------------
// Session
// ---------------------------------------------------------------------------

/// État d'une session enregistrée : son numéro et le numéro de la prochaine
/// transaction.
pub struct SessionPccc {
    pub session_handle: u32,
    pub transaction: u16,
}

/// Numéro de transaction suivant, modulo 2^16.
pub open spec fn transaction_suivante(t: u16) -> u16 {
    ((t + 1) % 65536) as u16
}

impl SessionPccc {
    /// Session enregistrée ; la première transaction porte le numéro 1.
    pub fn new(session_handle: u32) -> (r: SessionPccc)
        ensures
            r.session_handle == session_handle,
            r.transaction == 1,
    {
        SessionPccc { session_handle, transaction: 1 }
    }

    /// Trame complète d'écriture d'un INT ; consomme un numéro de transaction.
    pub fn write_int_packet(&mut self, address: &PcccAddress, value: i16) -> (r: Vec<u8>)
        ensures
            r@ == trame_eip(
                CMD_SEND_RR_DATA,
                old(self).session_handle,
                donnees_rr(message_ecriture_int(old(self).transaction, *address, value)),
            ),
            final(self).session_handle == old(self).session_handle,
            final(self).transaction == transaction_suivante(old(self).transaction),
    {
        let transaction = self.transaction;
        self.transaction = if transaction == 65535 {
            0
        } else {
            transaction + 1
        };
        let message = build_write_int_message(transaction, address, value);
        let rr_data = build_send_rr_data(message.as_slice());
        build_eip_header(CMD_SEND_RR_DATA, self.session_handle, rr_data.as_slice())
    }

    /// Trame de fermeture de la session.
    pub fn close_packet(&self) -> (r: Vec<u8>)
        ensures
            r@ == trame_eip(CMD_UNREGISTER_SESSION, self.session_handle, Seq::empty()),
    {
        let vide: [u8; 0] = [];
        let r = build_eip_header(CMD_UNREGISTER_SESSION, self.session_handle, &vide);
        assert(vide@ =~= Seq::<u8>::empty());
        r
    }
}

// ---------------------------------------------------------------------------
// Lois
// ---------------------------------------------------------------------------

/// Le message d'écriture compte 25 octets : service Execute PCCC (0x4B) en
/// tête, classe PCCC (0x67), commande 0x0F, fonction d'écriture typée 0xAA
/// sur trois champs d'adresse ; la transaction aux octets 15 et
/// 16, l'adresse (fichier, type, élément, sous-élément) aux octets 19 à 22,
/// et la valeur aux octets 23 et 24, poids faible en tête, de sorte que
/// l'automate relit exactement la valeur écrite.
pub proof fn loi_valeur_poids_faible(transaction: u16, a: PcccAddress, valeur: i16)
    ensures
        message_ecriture_int(transaction, a, valeur).len() == 25,
        message_ecriture_int(transaction, a, valeur)[0] == 0x4B,
        message_ecriture_int(transaction, a, valeur)[3] == 0x67,
        message_ecriture_int(transaction, a, valeur)[13] == 0x0F,
        message_ecriture_int(transaction, a, valeur)[14] == 0x00,
        message_ecriture_int(transaction, a, valeur)[17] == 0xAA,
        message_ecriture_int(transaction, a, valeur)[18] == 0x02,
        message_ecriture_int(transaction, a, valeur)[15] == transaction % 256,
        message_ecriture_int(transaction, a, valeur)[16] == transaction / 256,
        message_ecriture_int(transaction, a, valeur)[19] == a.file_number,
        message_ecriture_int(transaction, a, valeur)[20] == a.file_type,
        message_ecriture_int(transaction, a, valeur)[21] == a.element_number,
        message_ecriture_int(transaction, a, valeur)[22] == a.sub_element,
        message_ecriture_int(transaction, a, valeur)[23] == (valeur as u16) % 256,
        message_ecriture_int(transaction, a, valeur)[24] == (valeur as u16) / 256,
        message_ecriture_int(transaction, a, valeur)[23] + message_ecriture_int(
            transaction,
            a,
            valeur,
        )[24] * 256 == valeur as u16,
{
}

proof fn lemme_octets_u32(v: u32)
    ensures
        valeur_u32(octets_u32(v)[0], octets_u32(v)[1], octets_u32(v)[2], octets_u32(v)[3]) == v,
{
    assert(v % 256 + ((v / 256) % 256) * 256 + ((v / 65536) % 256) * 65536 + (v / 16777216)
        * 16777216 == v) by (bit_vector);
}

proof fn lemme_octets_u16(v: u16)
    ensures
        valeur_u16(octets_u16(v)[0], octets_u16(v)[1]) == v,
{
}

proof fn lemme_chiffres_sans_signe(n: nat)
    ensures
        !ecriture_decimale(n).contains(':'),
        !ecriture_decimale(n).contains('/'),
        !est_blanc(ecriture_decimale(n).last()),
        ecriture_decimale(n).len() > 0,
{
    lemme_ecriture_decimale(n);
    let d = ecriture_decimale(n);
    assert(est_chiffre(d[d.len() - 1]));
    if d.contains(':') {
        let i = choose|i: int| 0 <= i < d.len() && d[i] == ':';
        assert(est_chiffre(d[i]));
    }
    if d.contains('/') {
        let i = choose|i: int| 0 <= i < d.len() && d[i] == '/';
        assert(est_chiffre(d[i]));
    }
}

proof fn lemme_sans_blancs_bords(s: Seq<char>)
    requires
        s.len() > 0,
        !est_blanc(s[0]),
        !est_blanc(s.last()),
    ensures
        rognage(s) == s,
{
}

/// Une adresse écrite au format `<N|B|F><fichier>:<élément>` est relue avec
/// les champs qu'elle nomme, sous-élément nul.
pub proof fn loi_adresse_relue(lettre: char, fichier: u8, element: u8)
    requires
        lettre == 'N' || lettre == 'B' || lettre == 'F',
    ensures
        analyse_adresse(seq![lettre] + ecriture_decimale(fichier as nat) + seq![':'] + ecriture_decimale(element as nat))
            == Ok::<PcccAddress, ErreurAdresseVue>(
            PcccAddress {
                file_type: code_type_fichier(lettre).unwrap(),
                file_number: fichier,
                element_number: element,
                sub_element: 0,
            },
        ),
{
    let df = ecriture_decimale(fichier as nat);
    let de = ecriture_decimale(element as nat);
    let s = seq![lettre] + df + seq![':'] + de;
    lemme_chiffres_sans_signe(fichier as nat);
    lemme_chiffres_sans_signe(element as nat);
    assert(s[0] == lettre);
    assert(s.last() == de.last());
    lemme_sans_blancs_bords(s);
    assert(s.drop_first() =~= df + seq![':'] + de);
    lemme_decoupage_concat(df, de, ':');
    lemme_decoupage_sans_separateur(df, ':');
    lemme_decoupage_sans_separateur(de, ':');
    lemme_decoupage_sans_separateur(de, '/');
    let parts = decoupage(s.drop_first(), ':');
    assert(parts =~= seq![df, de]);
    loi_decimal_relu(fichier as nat, 255);
    loi_decimal_relu(element as nat, 255);
}

/// De même avec un sous-élément : `<N|B|F><fichier>:<élément>/<sous-élément>`.
pub proof fn loi_adresse_relue_sous_element(lettre: char, fichier: u8, element: u8, sous: u8)
    requires
        lettre == 'N' || lettre == 'B' || lettre == 'F',
    ensures
        analyse_adresse(seq![lettre] + ecriture_decimale(fichier as nat) + seq![':'] + ecriture_decimale(element as nat)
            + seq!['/'] + ecriture_decimale(sous as nat)) == Ok::<PcccAddress, ErreurAdresseVue>(
            PcccAddress {
                file_type: code_type_fichier(lettre).unwrap(),
                file_number: fichier,
                element_number: element,
                sub_element: sous,
            },
        ),
{
    let df = ecriture_decimale(fichier as nat);
    let de = ecriture_decimale(element as nat);
    let ds = ecriture_decimale(sous as nat);
    let queue = de + seq!['/'] + ds;
    let s = seq![lettre] + df + seq![':'] + queue;
    lemme_chiffres_sans_signe(fichier as nat);
    lemme_chiffres_sans_signe(element as nat);
    lemme_chiffres_sans_signe(sous as nat);
    assert(s =~= seq![lettre] + df + seq![':'] + de + seq!['/'] + ds);
    assert(s[0] == lettre);
    assert(s.last() == ds.last());
    lemme_sans_blancs_bords(s);
    assert(!queue.contains(':')) by {
        if queue.contains(':') {
            let i = choose|i: int| 0 <= i < queue.len() && queue[i] == ':';
            if i < de.len() {
                assert(de[i] == ':');
            } else if i > de.len() {
                assert(ds[i - de.len() - 1] == ':');
            }
        }
    }
    assert(s.drop_first() =~= df + seq![':'] + queue);
    lemme_decoupage_concat(df, queue, ':');
    lemme_decoupage_sans_separateur(df, ':');
    lemme_decoupage_sans_separateur(queue, ':');
    let parts = decoupage(s.drop_first(), ':');
    assert(parts =~= seq![df, queue]);
    lemme_decoupage_concat(de, ds, '/');
    lemme_decoupage_sans_separateur(de, '/');
    lemme_decoupage_sans_separateur(ds, '/');
    assert(decoupage(queue, '/') =~= seq![de, ds]);
    loi_decimal_relu(fichier as nat, 255);
    loi_decimal_relu(element as nat, 255);
    loi_decimal_relu(sous as nat, 255);
}

/// Nombre de blancs de tête.
pub open spec fn blancs_de_tete(s: Seq<char>) -> nat
    decreases s.len(),
{
    if s.len() > 0 && est_blanc(s[0]) {
        1 + blancs_de_tete(s.drop_first())
    } else {
        0
    }
}

/// Le texte dont le premier caractère non blanc est passé en majuscule ASCII.
pub open spec fn lettre_en_majuscule(s: Seq<char>) -> Seq<char> {
    let i = blancs_de_tete(s) as int;
    if i < s.len() {
        s.update(i, majuscule_ascii(s[i]))
    } else {
        s
    }
}

proof fn lemme_majuscule(c: char)
    ensures
        !est_blanc(c) ==> !est_blanc(majuscule_ascii(c)),
        majuscule_ascii(majuscule_ascii(c)) == majuscule_ascii(c),
{
    if 'a' <= c && c <= 'z' {
        assert((((c as int) - 32) as char) as u32 == (c as u32) - 32);
    }
}

proof fn lemme_debut(s: Seq<char>)
    ensures
        sans_blancs_debut(s).len() > 0 ==> !est_blanc(sans_blancs_debut(s)[0]),
        blancs_de_tete(s) <= s.len(),
        sans_blancs_debut(s) == s.subrange(blancs_de_tete(s) as int, s.len() as int),
    decreases s.len(),
{
    if s.len() > 0 && est_blanc(s[0]) {
        lemme_debut(s.drop_first());
        assert(s.drop_first().subrange(blancs_de_tete(s.drop_first()) as int, s.len() - 1)
            =~= s.subrange(blancs_de_tete(s) as int, s.len() as int));
    } else {
        assert(s.subrange(0, s.len() as int) =~= s);
    }
}

proof fn lemme_fin(x: Seq<char>)
    ensures
        sans_blancs_fin(x).len() <= x.len(),
        sans_blancs_fin(x) == x.subrange(0, sans_blancs_fin(x).len() as int),
        sans_blancs_fin(x).len() > 0 ==> !est_blanc(sans_blancs_fin(x).last()),
        x.len() > 0 && !est_blanc(x[0]) ==> sans_blancs_fin(x).len() > 0,
        sans_blancs_fin(sans_blancs_fin(x)) == sans_blancs_fin(x),
    decreases x.len(),
{
    if x.len() > 0 && est_blanc(x.last()) {
        let d = x.drop_last();
        lemme_fin(d);
        assert(x.subrange(0, sans_blancs_fin(x).len() as int) =~= d.subrange(
            0,
            sans_blancs_fin(d).len() as int,
        ));
        if x.len() > 0 && !est_blanc(x[0]) {
            assert(d.len() > 0 && d[0] == x[0]);
        }
    } else {
        assert(x.subrange(0, x.len() as int) =~= x);
    }
}

/// Rogner un texte déjà rogné ne change rien.
proof fn lemme_rognage_idempotent(s: Seq<char>)
    ensures
        rognage(rognage(s)) == rognage(s),
{
    let d = sans_blancs_debut(s);
    lemme_debut(s);
    lemme_fin(d);
    let f = sans_blancs_fin(d);
    if f.len() > 0 {
        assert(f[0] == d[0]);
    }
    assert(sans_blancs_debut(f) == f);
}

proof fn lemme_debut_mis_a_jour(s: Seq<char>, c: char)
    requires
        (blancs_de_tete(s) as int) < s.len(),
        !est_blanc(c),
    ensures
        sans_blancs_debut(s.update(blancs_de_tete(s) as int, c)) == sans_blancs_debut(s).update(
            0,
            c,
        ),
        blancs_de_tete(s.update(blancs_de_tete(s) as int, c)) == blancs_de_tete(s),
    decreases s.len(),
{
    let i = blancs_de_tete(s) as int;
    let u = s.update(i, c);
    lemme_debut(s);
    if s.len() > 0 && est_blanc(s[0]) {
        let d = s.drop_first();
        lemme_debut_mis_a_jour(d, c);
        assert(u[0] == s[0]);
        assert(u.drop_first() =~= d.update(i - 1, c));
    } else {
        assert(u[0] == c);
    }
}

proof fn lemme_fin_mis_a_jour(x: Seq<char>, c: char)
    requires
        x.len() > 0,
        !est_blanc(x[0]),
        !est_blanc(c),
    ensures
        sans_blancs_fin(x).len() > 0,
        sans_blancs_fin(x.update(0, c)) == sans_blancs_fin(x).update(0, c),
    decreases x.len(),
{
    lemme_fin(x);
    let u = x.update(0, c);
    if x.len() > 1 && est_blanc(x.last()) {
        let d = x.drop_last();
        lemme_fin_mis_a_jour(d, c);
        assert(u.drop_last() =~= d.update(0, c));
        assert(u.last() == x.last());
    } else if x.len() == 1 {
        assert(u.last() == c);
    } else {
        assert(u.last() == x.last());
    }
}

/// Une adresse se lit de même, rognée ou non de ses blancs de bord ; sa
/// lettre de type se lit de même en majuscule ou en minuscule.
pub proof fn loi_adresse_normalisee(s: Seq<char>)
    ensures
        analyse_adresse(rognage(s)) == analyse_adresse(s),
        analyse_adresse(lettre_en_majuscule(s)) is Ok <==> analyse_adresse(s) is Ok,
        analyse_adresse(s) matches Ok(a) ==> analyse_adresse(lettre_en_majuscule(s)) == Ok::<
            PcccAddress,
            ErreurAdresseVue,
        >(a),
{
    lemme_rognage_idempotent(s);
    let i = blancs_de_tete(s) as int;
    lemme_debut(s);
    if i < s.len() {
        let c = majuscule_ascii(s[i]);
        let d = sans_blancs_debut(s);
        assert(d[0] == s[i]);
        lemme_majuscule(s[i]);
        lemme_debut_mis_a_jour(s, c);
        lemme_fin_mis_a_jour(d, c);
        let t = rognage(s);
        let t2 = rognage(lettre_en_majuscule(s));
        lemme_fin(d);
        assert(t[0] == d[0]);
        assert(t2 == t.update(0, c));
        assert(t2.drop_first() =~= t.drop_first());
        assert(majuscule_ascii(t2[0]) == majuscule_ascii(t[0]));
    }
}

/// La session que porte une trame EtherNet/IP est celle que relit
/// `read_session_handle`, sauf la session nulle, qui est refusée.
pub proof fn loi_session_relue(commande: u16, session: u32, donnees: Seq<u8>)
    ensures
        session_lue(trame_eip(commande, session, donnees)) == (if session == 0 {
            Err::<u32, ErreurPccc>(ErreurPccc::SessionRefusee)
        } else {
            Ok::<u32, ErreurPccc>(session)
        }),
{
    let t = trame_eip(commande, session, donnees);
    lemme_octets_u32(session);
    assert(t[4] == octets_u32(session)[0]);
    assert(t[5] == octets_u32(session)[1]);
    assert(t[6] == octets_u32(session)[2]);
    assert(t[7] == octets_u32(session)[3]);
}

/// L'en-tête d'une trame de statut nul rend la longueur de ses données, tant
/// qu'elle tient sur 16 bits.
pub proof fn loi_entete_relu(commande: u16, session: u32, donnees: Seq<u8>)
    requires
        donnees.len() < 65536,
    ensures
        entete_lu(trame_eip(commande, session, donnees).subrange(0, EIP_HEADER_SIZE as int))
            == Ok::<usize, ErreurPccc>(donnees.len() as usize),
{
    let t = trame_eip(commande, session, donnees);
    let h = t.subrange(0, EIP_HEADER_SIZE as int);
    let l = (donnees.len() % 65536) as u16;
    lemme_octets_u16(l);
    lemme_octets_u32(0);
    assert(h[2] == octets_u16(l)[0]);
    assert(h[3] == octets_u16(l)[1]);
    assert(h[8] == octets_u32(0)[0]);
    assert(h[9] == octets_u32(0)[1]);
    assert(h[10] == octets_u32(0)[2]);
    assert(h[11] == octets_u32(0)[3]);
}

} // verus!
