//! Signalement du résultat d'inspection à l'automate : choix du driver selon
//! la configuration et valeurs écrites.

pub mod pccc;
pub mod allen_bradley;

use vstd::prelude::*;
use crate::config::AutomateConfig;
use crate::texte::{memes_textes, minuscules, en_minuscules};
use self::allen_bradley::AllenBradleyDriver;
use self::pccc::{PcccAddress, ErreurAdresse, ErreurAdresseVue, analyse_adresse};

verus! {

/// Résultat simplifié à écrire vers l'automate.
#[derive(Debug, Clone, Copy, PartialEq, Eq, Structural)]
pub enum ResultatPiece {
    /// Pièce bonne.
    PieceOk,
    /// Pièce défectueuse ou absente.
    Nok,
    /// Pas de réponse PIIA dans le délai.
    Timeout,
}

/// Valeur du tag résultat : 1 = OK, 2 = NOK ; un timeout vaut NOK.
pub open spec fn code_pour(r: ResultatPiece) -> i16 {
    match r {
        ResultatPiece::PieceOk => 1,
        ResultatPiece::Nok => 2,
        ResultatPiece::Timeout => 2,
    }
}

/// Valeur du tag résultat.
pub fn code_resultat(r: ResultatPiece) -> (c: i16)
    ensures
        c == code_pour(r),
{
    match r {
        ResultatPiece::PieceOk => 1,
        ResultatPiece::Nok => 2,
        ResultatPiece::Timeout => 2,
    }
}

/// Texte écrit par le driver fichier.
pub fn texte_resultat(r: ResultatPiece) -> (t: &'static str)
    ensures
        t@ == (match r {
            ResultatPiece::PieceOk => "OK"@,
            ResultatPiece::Nok => "NOK"@,
            ResultatPiece::Timeout => "TIMEOUT"@,
        }),
{
    match r {
        ResultatPiece::PieceOk => "OK",
        ResultatPiece::Nok => "NOK",
        ResultatPiece::Timeout => "TIMEOUT",
    }
}

/// Ligne envoyée par le driver TCP.
pub fn ligne_resultat(r: ResultatPiece) -> (t: &'static str)
    ensures
        t@ == (match r {
            ResultatPiece::PieceOk => "OK\n"@,
            ResultatPiece::Nok => "NOK\n"@,
            ResultatPiece::Timeout => "TIMEOUT\n"@,
        }),
{
    match r {
        ResultatPiece::PieceOk => "OK\n",
        ResultatPiece::Nok => "NOK\n",
        ResultatPiece::Timeout => "TIMEOUT\n",
    }
}

/// Driver retenu, avec ce qu'il lui faut pour travailler.
pub enum DriverPlc {
    AllenBradley(AllenBradleyDriver),
    /// Écrit le résultat dans un fichier (debug, test).
    Fichier { chemin: String },
    /// Envoie le résultat en une ligne à un serveur TCP.
    Tcp { adresse: String },
}

/// Pourquoi aucun driver n'a pu être créé pour une configuration active.
#[derive(Debug, PartialEq)]
pub enum ErreurDriver {
    /// Type inconnu (le type en minuscules).
    TypeInconnu(String),
    /// Un tag Allen-Bradley est illisible.
    Adresse(ErreurAdresse),
}

pub open spec fn est_allen_bradley(t: Seq<char>) -> bool {
    t == "allen_bradley"@ || t == "allenbradley"@ || t == "ab"@
}

pub open spec fn est_fichier(t: Seq<char>) -> bool {
    t == "fichier"@ || t == "file"@
}

pub open spec fn est_tcp(t: Seq<char>) -> bool {
    t == "tcp"@
}

pub open spec fn est_aucun(t: Seq<char>) -> bool {
    t == "none"@ || t == ""@
}

/// Texte facultatif, ou le défaut.
pub open spec fn ou_defaut(o: Option<String>, defaut: Seq<char>) -> Seq<char> {
    match o {
        Some(s) => s@,
        None => defaut,
    }
}

/// Le driver que décrit la configuration pour le type `t` (déjà en minuscules).
pub open spec fn driver_decrit(
    config: AutomateConfig,
    t: Seq<char>,
    r: Result<Option<DriverPlc>, ErreurDriver>,
) -> bool {
    let adresse = ou_defaut(config.address, "192.168.1.10"@);
    let tag_resultat = ou_defaut(config.result_tag, "N7:0"@);
    let tag_heartbeat = ou_defaut(config.heartbeat_tag, "N7:1"@);
    if est_allen_bradley(t) {
        match r {
            Ok(Some(DriverPlc::AllenBradley(d))) => {
                &&& analyse_adresse(tag_resultat) == Ok::<PcccAddress, ErreurAdresseVue>(
                    d.result_address,
                )
                &&& analyse_adresse(tag_heartbeat) == Ok::<PcccAddress, ErreurAdresseVue>(
                    d.heartbeat_address,
                )
                &&& d.address@ == adresse
                &&& d.result_tag_str@ == tag_resultat
                &&& d.heartbeat_tag_str@ == tag_heartbeat
                &&& !d.connected
                &&& d.heartbeat == 0
            },
            Err(ErreurDriver::Adresse(e)) => {
                ||| analyse_adresse(tag_resultat) == Err::<PcccAddress, ErreurAdresseVue>(e@)
                ||| (analyse_adresse(tag_resultat) is Ok && analyse_adresse(tag_heartbeat) == Err::<
                    PcccAddress,
                    ErreurAdresseVue,
                >(e@))
            },
            _ => false,
        }
    } else if est_fichier(t) {
        match r {
            Ok(Some(DriverPlc::Fichier { chemin })) => chemin@ == ou_defaut(
                config.fichier_resultat,
                "/tmp/surveillance_resultat.txt"@,
            ),
            _ => false,
        }
    } else if est_tcp(t) {
        match r {
            Ok(Some(DriverPlc::Tcp { adresse })) => adresse@ == ou_defaut(
                config.tcp_adresse,
                "192.168.1.200:5000"@,
            ),
            _ => false,
        }
    } else if est_aucun(t) {
        r matches Ok(None)
    } else {
        match r {
            Err(ErreurDriver::TypeInconnu(u)) => u@ == t,
            _ => false,
        }
    }
}

/// Adresse de l'automate Allen-Bradley : celle de la configuration si elle
/// est donnée, 192.168.1.10 sinon. Tags de résultat et de heartbeat : ceux
/// de la configuration, N7:0 et N7:1 sinon. Un type Allen-Bradley dont les
/// deux tags se lisent donne toujours ce driver, non connecté.
pub proof fn loi_driver_configure(
    config: AutomateConfig,
    t: Seq<char>,
    r: Result<Option<DriverPlc>, ErreurDriver>,
)
    requires
        driver_decrit(config, t, r),
    ensures
        r matches Ok(Some(DriverPlc::AllenBradley(d))) ==> d.address@ == (match config.address {
            Some(a) => a@,
            None => "192.168.1.10"@,
        }),
        r matches Ok(Some(DriverPlc::AllenBradley(d))) ==> d.result_tag_str@ == (
        match config.result_tag {
            Some(a) => a@,
            None => "N7:0"@,
        }),
        r matches Ok(Some(DriverPlc::AllenBradley(d))) ==> d.heartbeat_tag_str@ == (
        match config.heartbeat_tag {
            Some(a) => a@,
            None => "N7:1"@,
        }),
        r matches Ok(Some(DriverPlc::AllenBradley(d))) ==> !d.connected,
        (t == "allen_bradley"@ || t == "allenbradley"@ || t == "ab"@) && analyse_adresse(
            match config.result_tag {
                Some(a) => a@,
                None => "N7:0"@,
            },
        ) is Ok && analyse_adresse(
            match config.heartbeat_tag {
                Some(a) => a@,
                None => "N7:1"@,
            },
        ) is Ok ==> (r matches Ok(Some(DriverPlc::AllenBradley(_)))),
{
}

fn texte_ou(o: &Option<String>, defaut: &str) -> (r: String)
    ensures
        r@ == ou_defaut(*o, defaut@),
{
    match o {
        Some(s) => s.clone(),
        None => String::from_str(defaut),
    }
}

/// Driver décrit par la configuration pour le type `type_minuscule`
/// (le type de la configuration passé en minuscules).
pub fn driver_pour_type(config: &AutomateConfig, type_minuscule: &str) -> (r: Result<
    Option<DriverPlc>,
    ErreurDriver,
>)
    ensures
        driver_decrit(*config, type_minuscule@, r),
        r matches Ok(Some(DriverPlc::AllenBradley(d))) ==> d.address@ == (match config.address {
            Some(a) => a@,
            None => "192.168.1.10"@,
        }),
{
    let t = type_minuscule;
    if memes_textes(t, "allen_bradley") || memes_textes(t, "allenbradley") || memes_textes(t, "ab") {
        let address = texte_ou(&config.address, "192.168.1.10");
        let result_tag = texte_ou(&config.result_tag, "N7:0");
        let heartbeat_tag = texte_ou(&config.heartbeat_tag, "N7:1");
        match AllenBradleyDriver::new(
            address.as_str(),
            result_tag.as_str(),
            heartbeat_tag.as_str(),
        ) {
            Ok(d) => Ok(Some(DriverPlc::AllenBradley(d))),
            Err(e) => Err(ErreurDriver::Adresse(e)),
        }
    } else if memes_textes(t, "fichier") || memes_textes(t, "file") {
        Ok(
            Some(
                DriverPlc::Fichier {
                    chemin: texte_ou(&config.fichier_resultat, "/tmp/surveillance_resultat.txt"),
                },
            ),
        )
    } else if memes_textes(t, "tcp") {
        Ok(
            Some(
                DriverPlc::Tcp { adresse: texte_ou(&config.tcp_adresse, "192.168.1.200:5000") },
            ),
        )
    } else if memes_textes(t, "none") || memes_textes(t, "") {
        Ok(None)
    } else {
        Err(ErreurDriver::TypeInconnu(String::from_str(t)))
    }
}

/// Choix du driver pour la configuration, avec la raison d'une absence de
/// driver sur une configuration active : aucun si l'automate est inactif ;
/// sinon selon le type, comparé en minuscules.
pub fn choisir_driver(config: &AutomateConfig) -> (r: Result<Option<DriverPlc>, ErreurDriver>)
    ensures
        !config.actif ==> r matches Ok(None),
        config.actif ==> driver_decrit(*config, minuscules(config.driver_type@), r),
        r matches Ok(Some(DriverPlc::AllenBradley(d))) ==> d.address@ == (match config.address {
            Some(a) => a@,
            None => "192.168.1.10"@,
        }),
{
    if !config.actif {
        return Ok(None);
    }
    let t = en_minuscules(config.driver_type.as_str());
    driver_pour_type(config, t.as_str())
}

/// Aucun driver pour une configuration active de type `t` (en minuscules) :
/// type « none », vide ou inconnu, ou tag Allen-Bradley illisible.
pub open spec fn sans_driver(config: AutomateConfig, t: Seq<char>) -> bool {
    if est_allen_bradley(t) {
        ||| analyse_adresse(ou_defaut(config.result_tag, "N7:0"@)) is Err
        ||| analyse_adresse(ou_defaut(config.heartbeat_tag, "N7:1"@)) is Err
    } else {
        !est_fichier(t) && !est_tcp(t)
    }
}

/// Crée le driver adapté à la configuration : aucun si l'automate est
/// inactif, si le type est « none », vide ou inconnu, ou si un tag
/// Allen-Bradley est illisible ; sinon celui du type, comparé en minuscules.
pub fn creer_driver(config: &AutomateConfig) -> (r: Option<DriverPlc>)
    ensures
        !config.actif ==> r is None,
        config.actif ==> (r is None <==> sans_driver(*config, minuscules(config.driver_type@))),
        config.actif ==> (r matches Some(d) ==> driver_decrit(
            *config,
            minuscules(config.driver_type@),
            Ok(Some(d)),
        )),
        r matches Some(DriverPlc::AllenBradley(d)) ==> d.address@ == (match config.address {
            Some(a) => a@,
            None => "192.168.1.10"@,
        }),
{
    match choisir_driver(config) {
        Ok(o) => o,
        Err(_) => None,
    }
}

} // verus!
