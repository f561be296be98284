//! Serveur FTP intégré qui reçoit les images : réglages tirés de la
//! configuration et contrôle des identifiants. Le serveur lui-même tourne
//! dans l'application.

use vstd::prelude::*;
use crate::config::ServeurFtpConfig;
use crate::client_ftp::{adresse_serveur, adresse_ftp};
use crate::config::vue_option;
use crate::texte::memes_textes;

verus! {

/// Refus d'une authentification.
#[derive(Debug, Clone, Copy, PartialEq, Eq, Structural)]
pub enum ErreurAuthentification {
    MauvaisUtilisateur,
    MauvaisMotDePasse,
}

/// Authentificateur par identifiants.
pub struct IdentifiantsAuthenticator {
    pub utilisateur: String,
    pub mot_de_passe: String,
}

impl IdentifiantsAuthenticator {
    /// Accepte l'utilisateur configuré muni du mot de passe configuré.
    pub fn authenticate(&self, username: &str, password: Option<&str>) -> (r: Result<
        (),
        ErreurAuthentification,
    >)
        ensures
            username@ != self.utilisateur@ ==> r == Err::<(), ErreurAuthentification>(
                ErreurAuthentification::MauvaisUtilisateur,
            ),
            username@ == self.utilisateur@ ==> (r is Ok <==> (password matches Some(p) && p@
                == self.mot_de_passe@)),
            username@ == self.utilisateur@ && r is Err ==> r == Err::<(), ErreurAuthentification>(
                ErreurAuthentification::MauvaisMotDePasse,
            ),
    {
        if !memes_textes(username, self.utilisateur.as_str()) {
            return Err(ErreurAuthentification::MauvaisUtilisateur);
        }
        match password {
            Some(pass) => {
                if memes_textes(pass, self.mot_de_passe.as_str()) {
                    Ok(())
                } else {
                    Err(ErreurAuthentification::MauvaisMotDePasse)
                }
            },
            None => Err(ErreurAuthentification::MauvaisMotDePasse),
        }
    }
}

/// Mode d'accès au serveur intégré.
pub enum ModeAcces {
    /// Par identifiants.
    Identifiants(IdentifiantsAuthenticator),
    /// Anonyme faute d'identifiants configurés (alors que l'accès anonyme est refusé).
    AnonymeSansIdentifiants,
    /// Anonyme, comme configuré.
    Anonyme,
}

/// Réglages du serveur intégré.
pub struct PlanServeurFtp {
    /// Adresse d'écoute « adresse:port ».
    pub adresse: String,
    /// Répertoire servi.
    pub repertoire: String,
    /// Ports passifs, de `port_passif_min` inclus à `port_passif_max` exclu.
    pub port_passif_min: u16,
    pub port_passif_max: u16,
    pub acces: ModeAcces,
    /// Adresse annoncée en mode passif derrière un NAT.
    pub masquerade_address: Option<String>,
}

/// Le plan décrit la configuration pour ce répertoire.
pub open spec fn plan_decrit(config: ServeurFtpConfig, repertoire: Seq<char>, p: PlanServeurFtp) -> bool {
    &&& p.adresse@ == adresse_serveur(config.adresse_ecoute@, config.port_ecoute)
    &&& p.repertoire@ == repertoire
    &&& p.port_passif_min == config.port_passif_min
    &&& p.port_passif_max == config.port_passif_max
    &&& vue_option(p.masquerade_address) == vue_option(config.masquerade_address)
    &&& match p.acces {
        ModeAcces::Identifiants(a) => {
            &&& !config.anonyme
            &&& config.utilisateur matches Some(u) && a.utilisateur@ == u@
            &&& config.mot_de_passe matches Some(m) && a.mot_de_passe@ == m@
        },
        ModeAcces::AnonymeSansIdentifiants => {
            &&& !config.anonyme
            &&& (config.utilisateur is None || config.mot_de_passe is None)
        },
        ModeAcces::Anonyme => config.anonyme,
    }
}

fn copie_option(o: &Option<String>) -> (r: Option<String>)
    ensures
        vue_option(r) == vue_option(*o),
{
    match o {
        Some(s) => Some(s.clone()),
        None => None,
    }
}

/// Réglages du serveur intégré, ou rien s'il est désactivé.
pub fn plan_serveur_ftp(config: &ServeurFtpConfig, repertoire: &str) -> (r: Option<PlanServeurFtp>)
    ensures
        !config.actif ==> r is None,
        config.actif ==> (r matches Some(p) && plan_decrit(*config, repertoire@, p)),
{
    if !config.actif {
        return None;
    }
    let acces = if !config.anonyme {
        match (&config.utilisateur, &config.mot_de_passe) {
            (Some(u), Some(m)) => ModeAcces::Identifiants(
                IdentifiantsAuthenticator { utilisateur: u.clone(), mot_de_passe: m.clone() },
            ),
            _ => ModeAcces::AnonymeSansIdentifiants,
        }
    } else {
        ModeAcces::Anonyme
    };
    Some(
        PlanServeurFtp {
            adresse: adresse_ftp(config.adresse_ecoute.as_str(), config.port_ecoute),
            repertoire: String::from_str(repertoire),
            port_passif_min: config.port_passif_min,
            port_passif_max: config.port_passif_max,
            acces,
            masquerade_address: copie_option(&config.masquerade_address),
        },
    )
}

} // verus!
