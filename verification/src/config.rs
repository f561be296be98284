//! Configuration de l'application, lue depuis les octets d'un document INI.
//!
//! Chaque valeur est rognée de ses blancs ; une clé absente, ou une valeur
//! numérique illisible, laisse la valeur par défaut.

use vstd::prelude::*;
use ini::Ini;
use crate::texte::{
    rognage, rogner, decoupage, decouper, vues, entier_decimal, analyser_entier,
    egaux_sans_casse_ascii, egal_sans_casse_ascii, minuscules, en_minuscules,
};

verus! {

#[verifier::external_type_specification]
#[verifier::external_body]
pub struct ExIni(Ini);

/// Contenu d'un document INI : pour chaque couple (section, clé), la première
/// valeur de la clé dans la première section de ce nom, c'est-à-dire ce que
/// rend `Ini::get_from(Some(section), clé)`.
pub uninterp spec fn valeurs_ini(ini: Ini) -> Map<(Seq<char>, Seq<char>), Seq<char>>;

/// Appelle `Ini::get_from` ; le contrat dit que la réponse est l'entrée de
/// `valeurs_ini` pour ce couple, absente quand le couple n'y figure pas.
#[verifier::external_body]
fn valeur_ini(ini: &Ini, section: &str, cle: &str) -> (r: Option<String>)
    ensures
        match r {
            Some(v) => valeurs_ini(*ini).contains_key((section@, cle@)) && valeurs_ini(
                *ini,
            )[(section@, cle@)] == v@,
            None => !valeurs_ini(*ini).contains_key((section@, cle@)),
        },
{
    ini.get_from(Some(section), cle).map(|v| v.to_string())
}

/// Contenu du document INI que forment ces octets, lus comme texte UTF-8
/// puis analysés (ce que donne `Ini::read_from`) ; en cas d'échec, le message
/// de l'erreur (texte UTF-8 invalide ou erreur de syntaxe avec sa position).
pub uninterp spec fn contenu_ini(octets: Seq<u8>) -> Result<
    Map<(Seq<char>, Seq<char>), Seq<char>>,
    Seq<char>,
>;

/// Appelle `Ini::read_from` sur les octets ; le contrat dit que le document
/// obtenu a pour contenu `contenu_ini` des octets, ou que l'échec porte le
/// message qu'elle nomme, sans décrire la syntaxe INI.
#[verifier::external_body]
fn lire_ini(octets: &[u8]) -> (r: Result<Ini, String>)
    ensures
        match r {
            Ok(ini) => contenu_ini(octets@) == Ok::<_, Seq<char>>(valeurs_ini(ini)),
            Err(m) => contenu_ini(octets@) == Err::<Map<(Seq<char>, Seq<char>), Seq<char>>, _>(m@),
        },
{
    let mut lecteur = octets;
    Ini::read_from(&mut lecteur).map_err(|e| e.to_string())
}

/// Les octets privés d'une marque d'ordre UTF-8 (EF BB BF) en tête.
pub open spec fn sans_bom(octets: Seq<u8>) -> Seq<u8> {
    if octets.len() >= 3 && octets[0] == 0xEF && octets[1] == 0xBB && octets[2] == 0xBF {
        octets.subrange(3, octets.len() as int)
    } else {
        octets
    }
}

/// Message d'un chargement échoué.
pub open spec fn message_chargement(chemin: Seq<char>, detail: Seq<char>) -> Seq<char> {
    "Impossible de charger "@ + chemin + ": "@ + detail
}

/// Message d'un chargement échoué : « Impossible de charger <chemin>: <détail> ».
pub fn message_erreur_chargement(chemin: &str, detail: &str) -> (r: String)
    ensures
        r@ == message_chargement(chemin@, detail@),
{
    let r = String::from_str("Impossible de charger ").concat(chemin).concat(": ").concat(detail);
    assert(r@ =~= message_chargement(chemin@, detail@));
    r
}

// ---------------------------------------------------------------------------
// Lecture d'une valeur
// ---------------------------------------------------------------------------

/// Valeur brute d'une clé, si elle figure dans la section.
pub open spec fn valeur_brute(m: Map<(Seq<char>, Seq<char>), Seq<char>>, section: Seq<char>, cle: Seq<
    char,
>) -> Option<Seq<char>> {
    if m.contains_key((section, cle)) {
        Some(m[(section, cle)])
    } else {
        None
    }
}

/// Texte d'une clé, ou le défaut, rogné de ses blancs.
pub open spec fn texte_lu(
    m: Map<(Seq<char>, Seq<char>), Seq<char>>,
    section: Seq<char>,
    cle: Seq<char>,
    defaut: Seq<char>,
) -> Seq<char> {
    match valeur_brute(m, section, cle) {
        Some(v) => rognage(v),
        None => rognage(defaut),
    }
}

/// Booléen d'une clé : vrai si la valeur rognée est « true » à la casse près ;
/// le défaut si la clé manque.
pub open spec fn booleen_lu(
    m: Map<(Seq<char>, Seq<char>), Seq<char>>,
    section: Seq<char>,
    cle: Seq<char>,
    defaut: bool,
) -> bool {
    match valeur_brute(m, section, cle) {
        Some(v) => egaux_sans_casse_ascii(rognage(v), "true"@),
        None => defaut,
    }
}

/// Entier d'une clé, au plus `max` ; le défaut si la clé manque ou si la
/// valeur rognée n'est pas un entier dans les bornes.
pub open spec fn entier_lu(
    m: Map<(Seq<char>, Seq<char>), Seq<char>>,
    section: Seq<char>,
    cle: Seq<char>,
    defaut: nat,
    max: nat,
) -> nat {
    match valeur_brute(m, section, cle) {
        Some(v) => match entier_decimal(rognage(v), max) {
            Some(n) => n,
            None => defaut,
        },
        None => defaut,
    }
}

/// Un texte vide vaut absence.
pub open spec fn optionnel(s: Seq<char>) -> Option<Seq<char>> {
    if s.len() == 0 {
        None
    } else {
        Some(s)
    }
}

/// Vue d'un texte facultatif.
pub open spec fn vue_option(o: Option<String>) -> Option<Seq<char>> {
    match o {
        Some(s) => Some(s@),
        None => None,
    }
}

fn get_str(ini: &Ini, section: &str, key: &str, default: &str) -> (r: String)
    ensures
        r@ == texte_lu(valeurs_ini(*ini), section@, key@, default@),
{
    match valeur_ini(ini, section, key) {
        Some(v) => String::from_str(rogner(v.as_str())),
        None => String::from_str(rogner(default)),
    }
}

fn get_bool(ini: &Ini, section: &str, key: &str, default: bool) -> (r: bool)
    ensures
        r == booleen_lu(valeurs_ini(*ini), section@, key@, default),
{
    match valeur_ini(ini, section, key) {
        Some(v) => egal_sans_casse_ascii(rogner(v.as_str()), "true"),
        None => default,
    }
}

fn get_u16(ini: &Ini, section: &str, key: &str, default: u16) -> (r: u16)
    ensures
        r as nat == entier_lu(valeurs_ini(*ini), section@, key@, default as nat, 65535),
{
    match valeur_ini(ini, section, key) {
        Some(v) => match analyser_entier(rogner(v.as_str()), 65535) {
            Some(n) => n as u16,
            None => default,
        },
        None => default,
    }
}

fn get_usize(ini: &Ini, section: &str, key: &str, default: usize) -> (r: usize)
    ensures
        r as nat == entier_lu(valeurs_ini(*ini), section@, key@, default as nat, usize::MAX as nat),
{
    match valeur_ini(ini, section, key) {
        Some(v) => match analyser_entier(rogner(v.as_str()), usize::MAX as u64) {
            Some(n) => n as usize,
            None => default,
        },
        None => default,
    }
}

fn texte_optionnel(s: String) -> (r: Option<String>)
    ensures
        vue_option(r) == optionnel(s@),
{
    if s.as_str().is_empty() {
        None
    } else {
        Some(s)
    }
}

// ---------------------------------------------------------------------------
// Extensions surveillées
// ---------------------------------------------------------------------------

/// Les morceaux rognés et mis en minuscules, les vides écartés.
pub open spec fn extensions_lues(morceaux: Seq<Seq<char>>) -> Seq<Seq<char>>
    decreases morceaux.len(),
{
    if morceaux.len() == 0 {
        Seq::empty()
    } else {
        let avant = extensions_lues(morceaux.drop_last());
        let e = minuscules(rognage(morceaux.last()));
        if e.len() > 0 {
            avant.push(e)
        } else {
            avant
        }
    }
}

/// Les extensions lues sont, dans l'ordre, les morceaux rognés de leurs
/// blancs puis mis en minuscules, les morceaux vides après cela écartés.
pub proof fn loi_extensions_rognees(morceaux: Seq<Seq<char>>)
    ensures
        extensions_lues(morceaux) == morceaux.map_values(|p: Seq<char>| minuscules(rognage(p))).filter(
            |e: Seq<char>| e.len() > 0,
        ),
    decreases morceaux.len(),
{
    let f = |p: Seq<char>| minuscules(rognage(p));
    let g = |e: Seq<char>| e.len() > 0;
    let m = morceaux.map_values(f);
    reveal(Seq::filter);
    if morceaux.len() > 0 {
        loi_extensions_rognees(morceaux.drop_last());
        assert(morceaux.drop_last().map_values(f) =~= m.drop_last());
        assert(m.last() == minuscules(rognage(morceaux.last())));
    } else {
        assert(m =~= Seq::<Seq<char>>::empty());
    }
}

/// Liste d'extensions séparées par des virgules (ex : ".jpg, .PNG").
pub fn lire_extensions(liste: &str) -> (r: Vec<String>)
    ensures
        vues(r@) == extensions_lues(decoupage(liste@, ',')),
        vues(r@) == decoupage(liste@, ',').map_values(|p: Seq<char>| minuscules(rognage(p))).filter(
            |e: Seq<char>| e.len() > 0,
        ),
{
    proof {
        loi_extensions_rognees(decoupage(liste@, ','));
    }
    let morceaux = decouper(liste, ',');
    let ghost mv = vues(morceaux@);
    let mut r: Vec<String> = Vec::new();
    let mut i: usize = 0;
    while i < morceaux.len()
        invariant
            i <= morceaux@.len(),
            mv == vues(morceaux@),
            vues(r@) == extensions_lues(mv.subrange(0, i as int)),
        decreases morceaux@.len() - i,
    {
        let e = en_minuscules(rogner(morceaux[i].as_str()));
        assert(mv.subrange(0, i + 1).drop_last() =~= mv.subrange(0, i as int));
        assert(mv.subrange(0, i + 1).last() == morceaux[i as int]@);
        if !e.as_str().is_empty() {
            let ghost avant = vues(r@);
            r.push(e);
            assert(vues(r@) =~= avant.push(e@));
        }
        i = i + 1;
    }
    assert(mv.subrange(0, morceaux@.len() as int) =~= mv);
    r
}

// ---------------------------------------------------------------------------
// Sections
// ---------------------------------------------------------------------------

/// Section [surveillance].
#[derive(Clone, Debug)]
pub struct SurveillanceConfig {
    pub repertoire_surveille: String,
    pub extensions: Vec<String>,
    /// Obsolète : les images sont maintenant supprimées après traitement.
    pub dossier_envoye: Option<String>,
}

/// Section [serveur_ftp].
#[derive(Clone, Debug)]
pub struct ServeurFtpConfig {
    pub actif: bool,
    pub port_ecoute: u16,
    pub adresse_ecoute: String,
    pub utilisateur: Option<String>,
    pub mot_de_passe: Option<String>,
    pub anonyme: bool,
    pub masquerade_address: Option<String>,
    pub port_passif_min: u16,
    pub port_passif_max: u16,
}

/// Section [ftp] (serveur distant).
#[derive(Clone, Debug)]
pub struct FtpClientConfig {
    pub host: String,
    pub port: u16,
    pub utilisateur: String,
    pub mot_de_passe: String,
    pub dossier_distant: String,
    pub max_images: usize,
    pub mode_passif: bool,
}

/// Section [piia].
#[derive(Clone, Debug)]
pub struct PiiaConfig {
    pub actif: bool,
    pub url: String,
    pub timeout_ms: u64,
}

/// Section [automate].
#[derive(Clone, Debug)]
pub struct AutomateConfig {
    pub actif: bool,
    /// Type de driver : "allen_bradley", "fichier", "tcp", "none".
    pub driver_type: String,
    /// Adresse IP de l'automate (Allen-Bradley).
    pub address: Option<String>,
    /// Adresse PCCC du tag résultat (ex : "N7:0") — INT : 1 = OK, 2 = NOK.
    pub result_tag: Option<String>,
    /// Adresse PCCC du tag heartbeat (ex : "N7:1") — INT : compteur 1..32767.
    pub heartbeat_tag: Option<String>,
    /// Chemin du fichier résultat (mode fichier).
    pub fichier_resultat: Option<String>,
    /// Adresse:port du serveur TCP (mode tcp).
    pub tcp_adresse: Option<String>,
}

/// Section [interface].
#[derive(Clone, Debug)]
pub struct InterfaceConfig {
    pub plein_ecran: bool,
    pub touche_quitter: String,
    pub timeout_fichier_secs: u64,
    pub retries_upload: u32,
}

/// Configuration complète.
#[derive(Clone, Debug)]
pub struct AppConfig {
    pub surveillance: SurveillanceConfig,
    pub serveur_ftp: ServeurFtpConfig,
    pub ftp_client: FtpClientConfig,
    pub piia: PiiaConfig,
    pub automate: AutomateConfig,
    pub interface: InterfaceConfig,
}

impl SurveillanceConfig {
    pub open spec fn lue(&self, m: Map<(Seq<char>, Seq<char>), Seq<char>>) -> bool {
        let s = "surveillance"@;
        &&& self.repertoire_surveille@ == texte_lu(
            m,
            s,
            "repertoire_surveille"@,
            "images_input"@,
        )
        &&& vues(self.extensions@) == extensions_lues(
            decoupage(texte_lu(m, s, "extensions"@, ".jpg,.jpeg,.png"@), ','),
        )
        &&& vue_option(self.dossier_envoye) == optionnel(
            texte_lu(m, s, "dossier_envoye"@, ""@),
        )
    }
}

impl ServeurFtpConfig {
    pub open spec fn lue(&self, m: Map<(Seq<char>, Seq<char>), Seq<char>>) -> bool {
        let s = "serveur_ftp"@;
        &&& self.actif == booleen_lu(m, s, "actif"@, true)
        &&& self.port_ecoute as nat == entier_lu(m, s, "port_ecoute"@, 2121, 65535)
        &&& self.adresse_ecoute@ == texte_lu(m, s, "adresse_ecoute"@, "0.0.0.0"@)
        &&& vue_option(self.utilisateur) == optionnel(texte_lu(m, s, "utilisateur"@, ""@))
        &&& vue_option(self.mot_de_passe) == optionnel(texte_lu(m, s, "mot_de_passe"@, ""@))
        &&& self.anonyme == booleen_lu(m, s, "anonyme"@, true)
        &&& vue_option(self.masquerade_address) == optionnel(
            texte_lu(m, s, "masquerade_address"@, ""@),
        )
        &&& self.port_passif_min as nat == entier_lu(m, s, "port_passif_min"@, 60000, 65535)
        &&& self.port_passif_max as nat == entier_lu(m, s, "port_passif_max"@, 60100, 65535)
    }
}

impl FtpClientConfig {
    pub open spec fn lue(&self, m: Map<(Seq<char>, Seq<char>), Seq<char>>) -> bool {
        let s = "ftp"@;
        &&& self.host@ == texte_lu(m, s, "host"@, "192.168.1.100"@)
        &&& self.port as nat == entier_lu(m, s, "port"@, 21, 65535)
        &&& self.utilisateur@ == texte_lu(m, s, "utilisateur"@, "ftpuser"@)
        &&& self.mot_de_passe@ == texte_lu(m, s, "mot_de_passe"@, "ftppass"@)
        &&& self.dossier_distant@ == texte_lu(m, s, "dossier_distant"@, "/images"@)
        &&& self.max_images as nat == entier_lu(m, s, "max_images"@, 20000, usize::MAX as nat)
        &&& self.mode_passif == booleen_lu(m, s, "mode_passif"@, true)
    }
}

impl PiiaConfig {
    pub open spec fn lue(&self, m: Map<(Seq<char>, Seq<char>), Seq<char>>) -> bool {
        let s = "piia"@;
        &&& self.actif == booleen_lu(m, s, "actif"@, false)
        &&& self.url@ == texte_lu(m, s, "url"@, "http://127.0.0.1:3001"@)
        &&& self.timeout_ms as nat == entier_lu(m, s, "timeout_ms"@, 1000, usize::MAX as nat)
    }
}

impl AutomateConfig {
    pub open spec fn lue(&self, m: Map<(Seq<char>, Seq<char>), Seq<char>>) -> bool {
        let s = "automate"@;
        &&& self.actif == booleen_lu(m, s, "actif"@, false)
        &&& self.driver_type@ == texte_lu(m, s, "driver_type"@, "none"@)
        &&& vue_option(self.address) == optionnel(texte_lu(m, s, "address"@, ""@))
        &&& vue_option(self.result_tag) == optionnel(texte_lu(m, s, "result_tag"@, ""@))
        &&& vue_option(self.heartbeat_tag) == optionnel(texte_lu(m, s, "heartbeat_tag"@, ""@))
        &&& vue_option(self.fichier_resultat) == optionnel(
            texte_lu(m, s, "fichier_resultat"@, ""@),
        )
        &&& vue_option(self.tcp_adresse) == optionnel(texte_lu(m, s, "tcp_adresse"@, ""@))
    }
}

impl InterfaceConfig {
    pub open spec fn lue(&self, m: Map<(Seq<char>, Seq<char>), Seq<char>>) -> bool {
        let s = "interface"@;
        &&& self.plein_ecran == booleen_lu(m, s, "plein_ecran"@, true)
        &&& self.touche_quitter@ == texte_lu(m, s, "touche_quitter"@, "Escape"@)
        &&& self.timeout_fichier_secs as nat == entier_lu(
            m,
            s,
            "timeout_fichier_secs"@,
            15,
            usize::MAX as nat,
        )
        &&& self.retries_upload == (entier_lu(m, s, "retries_upload"@, 3, usize::MAX as nat)
            % 0x1_0000_0000) as u32
    }
}

impl AppConfig {
    /// La configuration est celle que décrit le contenu `m` d'un document INI.
    pub open spec fn lue(&self, m: Map<(Seq<char>, Seq<char>), Seq<char>>) -> bool {
        &&& self.surveillance.lue(m)
        &&& self.serveur_ftp.lue(m)
        &&& self.ftp_client.lue(m)
        &&& self.piia.lue(m)
        &&& self.automate.lue(m)
        &&& self.interface.lue(m)
    }

    /// Lit la configuration dans le contenu d'un fichier INI (`chemin` ne sert
    /// qu'au message d'erreur). Une marque d'ordre UTF-8 en tête est ignorée.
    pub fn depuis_document(chemin: &str, octets: &[u8]) -> (r: Result<AppConfig, String>)
        ensures
            match r {
                Ok(c) => contenu_ini(sans_bom(octets@)) matches Ok(m) && c.lue(m),
                Err(e) => contenu_ini(sans_bom(octets@)) matches Err(d) && e@ == message_chargement(
                    chemin@,
                    d,
                ),
            },
    {
        let n = octets.len();
        let texte = if n >= 3 && octets[0] == 0xEF && octets[1] == 0xBB && octets[2] == 0xBF {
            &octets[3..n]
        } else {
            octets
        };
        assert(texte@ == sans_bom(octets@));
        match lire_ini(texte) {
            Ok(ini) => Ok(AppConfig::depuis_ini(&ini)),
            Err(d) => Err(message_erreur_chargement(chemin, d.as_str())),
        }
    }

    /// Lit toute la configuration dans un document INI chargé.
    pub fn depuis_ini(ini: &Ini) -> (r: AppConfig)
        ensures
            r.lue(valeurs_ini(*ini)),
    {
        // [surveillance]
        let repertoire = get_str(ini, "surveillance", "repertoire_surveille", "images_input");
        let extensions_str = get_str(ini, "surveillance", "extensions", ".jpg,.jpeg,.png");
        let extensions = lire_extensions(extensions_str.as_str());
        let dossier_envoye = texte_optionnel(get_str(ini, "surveillance", "dossier_envoye", ""));

        // [serveur_ftp]
        let srv_utilisateur = texte_optionnel(get_str(ini, "serveur_ftp", "utilisateur", ""));
        let srv_mot_de_passe = texte_optionnel(get_str(ini, "serveur_ftp", "mot_de_passe", ""));
        let masquerade = texte_optionnel(get_str(ini, "serveur_ftp", "masquerade_address", ""));

        let serveur_ftp = ServeurFtpConfig {
            actif: get_bool(ini, "serveur_ftp", "actif", true),
            port_ecoute: get_u16(ini, "serveur_ftp", "port_ecoute", 2121),
            adresse_ecoute: get_str(ini, "serveur_ftp", "adresse_ecoute", "0.0.0.0"),
            utilisateur: srv_utilisateur,
            mot_de_passe: srv_mot_de_passe,
            anonyme: get_bool(ini, "serveur_ftp", "anonyme", true),
            masquerade_address: masquerade,
            port_passif_min: get_u16(ini, "serveur_ftp", "port_passif_min", 60000),
            port_passif_max: get_u16(ini, "serveur_ftp", "port_passif_max", 60100),
        };

        // [ftp]
        let ftp_client = FtpClientConfig {
            host: get_str(ini, "ftp", "host", "192.168.1.100"),
            port: get_u16(ini, "ftp", "port", 21),
            utilisateur: get_str(ini, "ftp", "utilisateur", "ftpuser"),
            mot_de_passe: get_str(ini, "ftp", "mot_de_passe", "ftppass"),
            dossier_distant: get_str(ini, "ftp", "dossier_distant", "/images"),
            max_images: get_usize(ini, "ftp", "max_images", 20000),
            mode_passif: get_bool(ini, "ftp", "mode_passif", true),
        };

        // [piia]
        let piia = PiiaConfig {
            actif: get_bool(ini, "piia", "actif", false),
            url: get_str(ini, "piia", "url", "http://127.0.0.1:3001"),
            timeout_ms: get_usize(ini, "piia", "timeout_ms", 1000) as u64,
        };

        // [automate]
        let automate = AutomateConfig {
            actif: get_bool(ini, "automate", "actif", false),
            driver_type: get_str(ini, "automate", "driver_type", "none"),
            address: texte_optionnel(get_str(ini, "automate", "address", "")),
            result_tag: texte_optionnel(get_str(ini, "automate", "result_tag", "")),
            heartbeat_tag: texte_optionnel(get_str(ini, "automate", "heartbeat_tag", "")),
            fichier_resultat: texte_optionnel(get_str(ini, "automate", "fichier_resultat", "")),
            tcp_adresse: texte_optionnel(get_str(ini, "automate", "tcp_adresse", "")),
        };

        // [interface]
        let retries = get_usize(ini, "interface", "retries_upload", 3);
        let interface = InterfaceConfig {
            plein_ecran: get_bool(ini, "interface", "plein_ecran", true),
            touche_quitter: get_str(ini, "interface", "touche_quitter", "Escape"),
            timeout_fichier_secs: get_usize(ini, "interface", "timeout_fichier_secs", 15) as u64,
            retries_upload: (retries as u64 % 0x1_0000_0000) as u32,
        };

        AppConfig {
            surveillance: SurveillanceConfig {
                repertoire_surveille: repertoire,
                extensions,
                dossier_envoye,
            },
            serveur_ftp,
            ftp_client,
            piia,
            automate,
            interface,
        }
    }
}

} // verus!
