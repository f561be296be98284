//! Suivi du traitement d'une image pour l'affichage : statut montré à
//! l'opérateur, dernier verdict PIIA et résultat transmis à l'automate.
//! L'application fait tourner la boucle (réception, analyse, envoi FTP) et
//! dessine l'interface ; elle appelle ces transitions à chaque étape.

use vstd::prelude::*;
use crate::piia::ResultatAnalyse;
use crate::plc::{ResultatPiece, code_pour};
use crate::texte::{minuscules, en_minuscules, memes_textes, ecriture_decimale, ecrire_decimal};

verus! {

// ---------------------------------------------------------------------------
// Touche de sortie
// ---------------------------------------------------------------------------

/// Touches reconnues pour quitter l'application.
#[derive(Debug, Clone, Copy, PartialEq, Eq, Structural)]
pub enum Touche {
    Escape,
    F1,
    F2,
    F3,
    F4,
    F5,
    F6,
    F7,
    F8,
    F9,
    F10,
    F11,
    F12,
    Q,
}

/// Touche désignée par un nom en minuscules.
pub open spec fn touche_nommee(t: Seq<char>) -> Option<Touche> {
    if t == "escape"@ || t == "echap"@ {
        Some(Touche::Escape)
    } else if t == "f1"@ {
        Some(Touche::F1)
    } else if t == "f2"@ {
        Some(Touche::F2)
    } else if t == "f3"@ {
        Some(Touche::F3)
    } else if t == "f4"@ {
        Some(Touche::F4)
    } else if t == "f5"@ {
        Some(Touche::F5)
    } else if t == "f6"@ {
        Some(Touche::F6)
    } else if t == "f7"@ {
        Some(Touche::F7)
    } else if t == "f8"@ {
        Some(Touche::F8)
    } else if t == "f9"@ {
        Some(Touche::F9)
    } else if t == "f10"@ {
        Some(Touche::F10)
    } else if t == "f11"@ {
        Some(Touche::F11)
    } else if t == "f12"@ {
        Some(Touche::F12)
    } else if t == "q"@ {
        Some(Touche::Q)
    } else {
        None
    }
}

/// Touche désignée par un nom déjà en minuscules.
pub fn touche_depuis_minuscules(t: &str) -> (r: Option<Touche>)
    ensures
        r == touche_nommee(t@),
{
    if memes_textes(t, "escape") || memes_textes(t, "echap") {
        Some(Touche::Escape)
    } else if memes_textes(t, "f1") {
        Some(Touche::F1)
    } else if memes_textes(t, "f2") {
        Some(Touche::F2)
    } else if memes_textes(t, "f3") {
        Some(Touche::F3)
    } else if memes_textes(t, "f4") {
        Some(Touche::F4)
    } else if memes_textes(t, "f5") {
        Some(Touche::F5)
    } else if memes_textes(t, "f6") {
        Some(Touche::F6)
    } else if memes_textes(t, "f7") {
        Some(Touche::F7)
    } else if memes_textes(t, "f8") {
        Some(Touche::F8)
    } else if memes_textes(t, "f9") {
        Some(Touche::F9)
    } else if memes_textes(t, "f10") {
        Some(Touche::F10)
    } else if memes_textes(t, "f11") {
        Some(Touche::F11)
    } else if memes_textes(t, "f12") {
        Some(Touche::F12)
    } else if memes_textes(t, "q") {
        Some(Touche::Q)
    } else {
        None
    }
}

/// Touche de sortie configurée : celle que désigne le nom, comparé en
/// minuscules, ou Échap si le nom n'est pas reconnu.
pub fn touche_configuree(nom: &str) -> (r: Touche)
    ensures
        r == match touche_nommee(minuscules(nom@)) {
            Some(t) => t,
            None => Touche::Escape,
        },
{
    match parser_touche(nom) {
        Some(t) => t,
        None => Touche::Escape,
    }
}

/// Touche de la configuration, comparée en minuscules ; rien si le nom
/// n'est pas reconnu (l'application prend alors Échap).
pub fn parser_touche(nom: &str) -> (r: Option<Touche>)
    ensures
        r == touche_nommee(minuscules(nom@)),
{
    let t = en_minuscules(nom);
    touche_depuis_minuscules(t.as_str())
}

// ---------------------------------------------------------------------------
// Statut affiché
// ---------------------------------------------------------------------------

/// Couleur d'un statut.
#[derive(Debug, Clone, Copy, PartialEq, Eq, Structural)]
pub enum Couleur {
    Vert,
    Orange,
    Rouge,
}

impl Couleur {
    /// Composantes rouge, vert, bleu.
    pub fn rgb(&self) -> (r: (u8, u8, u8))
        ensures
            r == (match self {
                Couleur::Vert => (0u8, 204u8, 0u8),
                Couleur::Orange => (255u8, 170u8, 0u8),
                Couleur::Rouge => (255u8, 68u8, 68u8),
            }),
    {
        match self {
            Couleur::Vert => (0, 204, 0),
            Couleur::Orange => (255, 170, 0),
            Couleur::Rouge => (255, 68, 68),
        }
    }
}

/// Message de statut, avec ce qu'il faut pour l'écrire.
#[derive(Debug)]
pub enum Statut {
    EnAttente,
    FichierIncomplet { nom: String },
    AnalyseEnCours { nom: String },
    PieceOk { nom: String, processing_time_ms: u64 },
    PieceNok { nom: String, global_status: String, processing_time_ms: u64 },
    PiiaIndisponible { nom: String },
    EnvoiEnCours { nom: String },
    Envoye { nom: String },
    EchecEnvoi { nom: String, retries: u32 },
}

/// Vue d'un [`Statut`].
pub enum StatutVue {
    EnAttente,
    FichierIncomplet { nom: Seq<char> },
    AnalyseEnCours { nom: Seq<char> },
    PieceOk { nom: Seq<char>, processing_time_ms: u64 },
    PieceNok { nom: Seq<char>, global_status: Seq<char>, processing_time_ms: u64 },
    PiiaIndisponible { nom: Seq<char> },
    EnvoiEnCours { nom: Seq<char> },
    Envoye { nom: Seq<char> },
    EchecEnvoi { nom: Seq<char>, retries: u32 },
}

impl View for Statut {
    type V = StatutVue;

    open spec fn view(&self) -> StatutVue {
        match self {
            Statut::EnAttente => StatutVue::EnAttente,
            Statut::FichierIncomplet { nom } => StatutVue::FichierIncomplet { nom: nom@ },
            Statut::AnalyseEnCours { nom } => StatutVue::AnalyseEnCours { nom: nom@ },
            Statut::PieceOk { nom, processing_time_ms } => StatutVue::PieceOk {
                nom: nom@,
                processing_time_ms: *processing_time_ms,
            },
            Statut::PieceNok { nom, global_status, processing_time_ms } => StatutVue::PieceNok {
                nom: nom@,
                global_status: global_status@,
                processing_time_ms: *processing_time_ms,
            },
            Statut::PiiaIndisponible { nom } => StatutVue::PiiaIndisponible { nom: nom@ },
            Statut::EnvoiEnCours { nom } => StatutVue::EnvoiEnCours { nom: nom@ },
            Statut::Envoye { nom } => StatutVue::Envoye { nom: nom@ },
            Statut::EchecEnvoi { nom, retries } => StatutVue::EchecEnvoi {
                nom: nom@,
                retries: *retries,
            },
        }
    }
}

/// Couleur d'un statut : vert quand tout va bien, orange pendant un
/// traitement ou sans analyse, rouge sur un défaut ou un échec.
pub open spec fn couleur_de(s: StatutVue) -> Couleur {
    match s {
        StatutVue::EnAttente => Couleur::Vert,
        StatutVue::FichierIncomplet { .. } => Couleur::Rouge,
        StatutVue::AnalyseEnCours { .. } => Couleur::Orange,
        StatutVue::PieceOk { .. } => Couleur::Vert,
        StatutVue::PieceNok { .. } => Couleur::Rouge,
        StatutVue::PiiaIndisponible { .. } => Couleur::Orange,
        StatutVue::EnvoiEnCours { .. } => Couleur::Orange,
        StatutVue::Envoye { .. } => Couleur::Vert,
        StatutVue::EchecEnvoi { .. } => Couleur::Rouge,
    }
}

/// Texte affiché pour un statut.
pub open spec fn texte_de(s: StatutVue) -> Seq<char> {
    match s {
        StatutVue::EnAttente => "En attente de nouvelles images..."@,
        StatutVue::FichierIncomplet { nom } => "Fichier incomplet : "@ + nom,
        StatutVue::AnalyseEnCours { nom } => "Analyse PIIA en cours : "@ + nom,
        StatutVue::PieceOk { nom, processing_time_ms } => "OK - "@ + nom + " ("@
            + ecriture_decimale(processing_time_ms as nat) + "ms)"@,
        StatutVue::PieceNok { nom, global_status, processing_time_ms } => "NOK ["@
            + global_status + "] - "@ + nom + " ("@ + ecriture_decimale(processing_time_ms as nat)
            + "ms)"@,
        StatutVue::PiiaIndisponible { nom } => "PIIA indisponible - "@ + nom
            + " (analyse ignoree)"@,
        StatutVue::EnvoiEnCours { nom } => "Envoi en cours : "@ + nom,
        StatutVue::Envoye { nom } => "Envoyé : "@ + nom,
        StatutVue::EchecEnvoi { nom, retries } => "Échec envoi FTP ("@ + ecriture_decimale(
            retries as nat,
        ) + " retries) : "@ + nom,
    }
}

impl Statut {
    /// Texte affiché.
    pub fn texte(&self) -> (r: String)
        ensures
            r@ == texte_de(self@),
    {
        match self {
            Statut::EnAttente => String::from_str("En attente de nouvelles images..."),
            Statut::FichierIncomplet { nom } => {
                let r = String::from_str("Fichier incomplet : ").concat(nom.as_str());
                r
            },
            Statut::AnalyseEnCours { nom } => String::from_str("Analyse PIIA en cours : ").concat(
                nom.as_str(),
            ),
            Statut::PieceOk { nom, processing_time_ms } => {
                let ms = ecrire_decimal(*processing_time_ms);
                let r = String::from_str("OK - ").concat(nom.as_str()).concat(" (").concat(
                    ms.as_str(),
                ).concat("ms)");
                assert(r@ =~= texte_de(self@));
                r
            },
            Statut::PieceNok { nom, global_status, processing_time_ms } => {
                let ms = ecrire_decimal(*processing_time_ms);
                let r = String::from_str("NOK [").concat(global_status.as_str()).concat(
                    "] - ",
                ).concat(nom.as_str()).concat(" (").concat(ms.as_str()).concat("ms)");
                assert(r@ =~= texte_de(self@));
                r
            },
            Statut::PiiaIndisponible { nom } => {
                let r = String::from_str("PIIA indisponible - ").concat(nom.as_str()).concat(
                    " (analyse ignoree)",
                );
                assert(r@ =~= texte_de(self@));
                r
            },
            Statut::EnvoiEnCours { nom } => String::from_str("Envoi en cours : ").concat(
                nom.as_str(),
            ),
            Statut::Envoye { nom } => String::from_str("Envoyé : ").concat(nom.as_str()),
            Statut::EchecEnvoi { nom, retries } => {
                let n = ecrire_decimal(*retries as u64);
                let r = String::from_str("Échec envoi FTP (").concat(n.as_str()).concat(
                    " retries) : ",
                ).concat(nom.as_str());
                assert(r@ =~= texte_de(self@));
                r
            },
        }
    }

    pub fn couleur(&self) -> (r: Couleur)
        ensures
            r == couleur_de(self@),
    {
        match self {
            Statut::EnAttente => Couleur::Vert,
            Statut::FichierIncomplet { .. } => Couleur::Rouge,
            Statut::AnalyseEnCours { .. } => Couleur::Orange,
            Statut::PieceOk { .. } => Couleur::Vert,
            Statut::PieceNok { .. } => Couleur::Rouge,
            Statut::PiiaIndisponible { .. } => Couleur::Orange,
            Statut::EnvoiEnCours { .. } => Couleur::Orange,
            Statut::Envoye { .. } => Couleur::Vert,
            Statut::EchecEnvoi { .. } => Couleur::Rouge,
        }
    }
}

// ---------------------------------------------------------------------------
// Déroulement
// ---------------------------------------------------------------------------

/// Dernier verdict PIIA affiché.
#[derive(Debug)]
pub struct ResultatPiia {
    pub piece_ok: bool,
    pub global_status: String,
    pub processing_time_ms: u64,
    pub details: String,
}

/// Verdict tiré d'une analyse.
pub open spec fn verdict_de(r: ResultatPiia, a: ResultatAnalyse) -> bool {
    &&& r.piece_ok == a.piece_ok
    &&& r.global_status@ == a.global_status@
    &&& r.processing_time_ms == a.processing_time_ms
    &&& r.details@ == a.details@
}

/// Résultat transmis à l'automate après l'analyse (ou son absence).
pub open spec fn resultat_pour(analyse: Option<ResultatAnalyse>) -> ResultatPiece {
    match analyse {
        Some(a) => if a.piece_ok {
            ResultatPiece::PieceOk
        } else {
            ResultatPiece::Nok
        },
        None => ResultatPiece::Timeout,
    }
}

/// Statut après l'analyse (ou son absence).
pub open spec fn statut_apres_analyse(nom: Seq<char>, analyse: Option<ResultatAnalyse>) -> StatutVue {
    match analyse {
        Some(a) => if a.piece_ok {
            StatutVue::PieceOk { nom, processing_time_ms: a.processing_time_ms }
        } else {
            StatutVue::PieceNok {
                nom,
                global_status: a.global_status@,
                processing_time_ms: a.processing_time_ms,
            }
        },
        None => StatutVue::PiiaIndisponible { nom },
    }
}

/// Statut après l'envoi FTP : un succès garde le verdict PIIA affiché s'il
/// y en a un.
pub open spec fn statut_apres_envoi(
    courant: StatutVue,
    verdict_affiche: bool,
    nom: Seq<char>,
    succes: bool,
    retries: u32,
) -> StatutVue {
    if succes {
        if verdict_affiche {
            courant
        } else {
            StatutVue::Envoye { nom }
        }
    } else {
        StatutVue::EchecEnvoi { nom, retries }
    }
}

/// Ce que montre l'interface.
pub struct EtatAffichage {
    pub statut: Statut,
    pub resultat_piia: Option<ResultatPiia>,
}

impl EtatAffichage {
    /// En attente de nouvelles images, sans verdict.
    pub fn new() -> (r: EtatAffichage)
        ensures
            r.statut@ == StatutVue::EnAttente,
            r.resultat_piia is None,
    {
        EtatAffichage { statut: Statut::EnAttente, resultat_piia: None }
    }

    /// Le fichier n'a pas fini d'être écrit à temps (il est supprimé).
    pub fn fichier_incomplet(&mut self, nom: String)
        ensures
            final(self).statut@ == (StatutVue::FichierIncomplet { nom: nom@ }),
            final(self).resultat_piia == old(self).resultat_piia,
    {
        self.statut = Statut::FichierIncomplet { nom };
    }

    /// L'image part en analyse ; l'ancien verdict est effacé.
    pub fn debut_analyse(&mut self, nom: String)
        ensures
            final(self).statut@ == (StatutVue::AnalyseEnCours { nom: nom@ }),
            final(self).resultat_piia is None,
    {
        self.statut = Statut::AnalyseEnCours { nom };
        self.resultat_piia = None;
    }

    /// Fin de l'analyse : affiche le verdict et rend le résultat à
    /// transmettre à l'automate (un timeout sans analyse).
    pub fn fin_analyse(&mut self, nom: String, analyse: Option<&ResultatAnalyse>) -> (r:
        ResultatPiece)
        ensures
            r == resultat_pour(match analyse {
                Some(a) => Some(*a),
                None => None,
            }),
            final(self).statut@ == statut_apres_analyse(
                nom@,
                match analyse {
                    Some(a) => Some(*a),
                    None => None,
                },
            ),
            match analyse {
                Some(a) => final(self).resultat_piia matches Some(v) && verdict_de(v, *a),
                None => final(self).resultat_piia is None,
            },
    {
        match analyse {
            Some(a) => {
                self.resultat_piia = Some(
                    ResultatPiia {
                        piece_ok: a.piece_ok,
                        global_status: a.global_status.clone(),
                        processing_time_ms: a.processing_time_ms,
                        details: a.details.clone(),
                    },
                );
                if a.piece_ok {
                    self.statut = Statut::PieceOk { nom, processing_time_ms: a.processing_time_ms };
                    ResultatPiece::PieceOk
                } else {
                    self.statut = Statut::PieceNok {
                        nom,
                        global_status: a.global_status.clone(),
                        processing_time_ms: a.processing_time_ms,
                    };
                    ResultatPiece::Nok
                }
            },
            None => {
                self.statut = Statut::PiiaIndisponible { nom };
                self.resultat_piia = None;
                ResultatPiece::Timeout
            },
        }
    }

    /// Sans analyse PIIA configurée : l'image part directement à l'envoi.
    pub fn sans_analyse(&mut self, nom: String)
        ensures
            final(self).statut@ == (StatutVue::EnvoiEnCours { nom: nom@ }),
            final(self).resultat_piia is None,
    {
        self.statut = Statut::EnvoiEnCours { nom };
        self.resultat_piia = None;
    }

    /// Fin de l'envoi FTP (après `retries` nouvelles tentatives au plus).
    pub fn fin_envoi(&mut self, nom: String, succes: bool, retries: u32)
        ensures
            final(self).statut@ == statut_apres_envoi(
                old(self).statut@,
                old(self).resultat_piia is Some,
                nom@,
                succes,
                retries,
            ),
            final(self).resultat_piia == old(self).resultat_piia,
    {
        if succes {
            if self.resultat_piia.is_none() {
                self.statut = Statut::Envoye { nom };
            }
        } else {
            self.statut = Statut::EchecEnvoi { nom, retries };
        }
    }
}

/// L'automate ne reçoit « pièce bonne » (1) que d'une analyse qui juge la
/// pièce bonne ; une absence d'analyse vaut NOK (2).
pub proof fn loi_securite_automate(analyse: Option<ResultatAnalyse>)
    ensures
        (code_pour(resultat_pour(analyse)) == 1) == (analyse matches Some(a) && a.piece_ok),
        analyse is None ==> code_pour(resultat_pour(analyse)) == 2,
{
}

/// Après un envoi réussi, le verdict PIIA reste affiché tel quel.
pub proof fn loi_verdict_conserve(nom: Seq<char>, analyse: ResultatAnalyse, nom_envoi: Seq<char>, retries: u32)
    ensures
        statut_apres_envoi(
            statut_apres_analyse(nom, Some(analyse)),
            true,
            nom_envoi,
            true,
            retries,
        ) == statut_apres_analyse(nom, Some(analyse)),
{
}

} // verus!
