//! Surveillance d'images, envoi FTP, analyse PIIA et signalement du
//! résultat à un automate Allen-Bradley (PCCC sur EtherNet/IP).
//!
//! Ce crate rassemble la logique vérifiée ; les entrées-sorties
//! (réseau, disque, interface graphique) restent dans l'application.

pub mod texte;
pub mod plc;
pub mod config;
pub mod compteur;
pub mod piia;
pub mod client_ftp;
pub mod serveur_ftp;
pub mod surveillant;
pub mod traitement;
pub mod deroulement;
