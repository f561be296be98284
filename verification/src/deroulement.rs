//! Enchaînement des étapes du traitement d'une image reçue : attente de la
//! fin d'écriture, lecture, analyse, écriture dans l'automate, suppression
//! du fichier source, envoi FTP. L'application exécute chaque action et
//! rapporte son issue sous forme d'événement.

use vstd::prelude::*;

use crate::plc::ResultatPiece;

verus! {

/// Étape en cours ; chacune attend l'issue de l'action qui l'a ouverte.
#[derive(Debug, Clone, Copy, PartialEq, Eq, Structural)]
pub enum Etape {
    /// Attente de la fin d'écriture du fichier.
    AttenteEcriture,
    /// Lecture du fichier.
    Lecture,
    /// Analyse par le service PIIA.
    Analyse,
    /// Affichage de l'image, sans analyse.
    Affichage,
    /// Écriture du résultat dans l'automate.
    Automate,
    /// Suppression du fichier source.
    Suppression,
    /// Envoi au serveur FTP distant.
    Envoi,
    /// Image traitée ou abandonnée.
    Termine,
}

/// Ce que l'application doit faire ensuite pour l'image.
#[derive(Debug, Clone, Copy, PartialEq, Eq, Structural)]
pub enum Action {
    /// Supprimer le fichier incomplet et l'afficher comme tel ; fin.
    SupprimerIncomplet,
    /// Lire le contenu du fichier.
    LireFichier,
    /// Fichier illisible : abandonner l'image, sans la supprimer ; fin.
    Abandonner,
    /// Afficher l'image et la soumettre au service PIIA.
    AnalyserPiia,
    /// Afficher l'image ; aucune analyse n'est configurée.
    AfficherSansAnalyse,
    /// Écrire ce résultat dans l'automate.
    EcrireAutomate(ResultatPiece),
    /// Supprimer le fichier source (son contenu est en mémoire).
    SupprimerSource,
    /// Envoyer l'image au serveur FTP distant et afficher l'issue.
    EnvoyerFtp,
    /// L'image est traitée ; fin.
    Terminer,
    /// Rien : l'événement ne répond pas à l'étape en cours.
    Aucune,
}

/// Issue de la dernière action.
#[derive(Debug, Clone, Copy, PartialEq, Eq, Structural)]
pub enum Evenement {
    /// L'attente de fin d'écriture a pris fin ; le fichier est-il complet ?
    FinEcriture { complet: bool },
    /// La lecture du fichier a pris fin ; a-t-elle réussi ?
    Lu { reussi: bool },
    /// L'analyse a pris fin ; résultat à transmettre à l'automate.
    Analysee(ResultatPiece),
    /// L'action demandée a été faite (réussie ou non).
    Fait,
}

/// Étape suivante et action à faire, depuis `etape`, sur l'événement `ev`,
/// avec ou sans service PIIA et automate configurés.
pub open spec fn transition(etape: Etape, piia: bool, automate: bool, ev: Evenement) -> (
    Etape,
    Action,
) {
    match (etape, ev) {
        (Etape::AttenteEcriture, Evenement::FinEcriture { complet }) => if complet {
            (Etape::Lecture, Action::LireFichier)
        } else {
            (Etape::Termine, Action::SupprimerIncomplet)
        },
        (Etape::Lecture, Evenement::Lu { reussi }) => if !reussi {
            (Etape::Termine, Action::Abandonner)
        } else if piia {
            (Etape::Analyse, Action::AnalyserPiia)
        } else {
            (Etape::Affichage, Action::AfficherSansAnalyse)
        },
        (Etape::Analyse, Evenement::Analysee(r)) => if automate {
            (Etape::Automate, Action::EcrireAutomate(r))
        } else {
            (Etape::Suppression, Action::SupprimerSource)
        },
        (Etape::Affichage, Evenement::Fait) => (Etape::Suppression, Action::SupprimerSource),
        (Etape::Automate, Evenement::Fait) => (Etape::Suppression, Action::SupprimerSource),
        (Etape::Suppression, Evenement::Fait) => (Etape::Envoi, Action::EnvoyerFtp),
        (Etape::Envoi, Evenement::Fait) => (Etape::Termine, Action::Terminer),
        _ => (etape, Action::Aucune),
    }
}

/// Traitement d'une image, de sa réception à son envoi.
pub struct TraitementImage {
    pub etape: Etape,
    pub piia: bool,
    pub automate: bool,
}

impl TraitementImage {
    /// Image reçue : on attend d'abord la fin de son écriture.
    pub fn new(piia: bool, automate: bool) -> (r: TraitementImage)
        ensures
            r.etape == Etape::AttenteEcriture,
            r.piia == piia,
            r.automate == automate,
    {
        TraitementImage { etape: Etape::AttenteEcriture, piia, automate }
    }

    /// Prend en compte l'issue de la dernière action et rend la suivante.
    pub fn avancer(&mut self, ev: Evenement) -> (r: Action)
        ensures
            (final(self).etape, r) == transition(old(self).etape, old(self).piia, old(self).automate, ev),
            final(self).piia == old(self).piia,
            final(self).automate == old(self).automate,
            old(self).etape == Etape::Analyse && old(self).automate ==> (ev matches Evenement::Analysee(
                x,
            ) ==> r == Action::EcrireAutomate(x)),
    {
        proof {
            if let Evenement::Analysee(x) = ev {
                loi_resultat_transmis(old(self).piia, x);
            }
        }
        let (etape, action) = match (self.etape, ev) {
            (Etape::AttenteEcriture, Evenement::FinEcriture { complet }) => if complet {
                (Etape::Lecture, Action::LireFichier)
            } else {
                (Etape::Termine, Action::SupprimerIncomplet)
            },
            (Etape::Lecture, Evenement::Lu { reussi }) => if !reussi {
                (Etape::Termine, Action::Abandonner)
            } else if self.piia {
                (Etape::Analyse, Action::AnalyserPiia)
            } else {
                (Etape::Affichage, Action::AfficherSansAnalyse)
            },
            (Etape::Analyse, Evenement::Analysee(r)) => if self.automate {
                (Etape::Automate, Action::EcrireAutomate(r))
            } else {
                (Etape::Suppression, Action::SupprimerSource)
            },
            (Etape::Affichage, Evenement::Fait) => (Etape::Suppression, Action::SupprimerSource),
            (Etape::Automate, Evenement::Fait) => (Etape::Suppression, Action::SupprimerSource),
            (Etape::Suppression, Evenement::Fait) => (Etape::Envoi, Action::EnvoyerFtp),
            (Etape::Envoi, Evenement::Fait) => (Etape::Termine, Action::Terminer),
            _ => (self.etape, Action::Aucune),
        };
        self.etape = etape;
        action
    }
}

/// Avec un automate configuré, tout résultat d'analyse, quel qu'il soit
/// (pièce bonne, mauvaise ou délai dépassé), est écrit tel quel dans
/// l'automate ; sans automate, on passe à la suppression du fichier source.
pub proof fn loi_resultat_transmis(piia: bool, r: ResultatPiece)
    ensures
        transition(Etape::Analyse, piia, true, Evenement::Analysee(r)) == (
            Etape::Automate,
            Action::EcrireAutomate(r),
        ),
        transition(Etape::Analyse, piia, false, Evenement::Analysee(r)) == (
            Etape::Suppression,
            Action::SupprimerSource,
        ),
{
}

/// Parcours d'une image complète et lisible, quel que soit le résultat `r`
/// de l'analyse et l'issue des actions : lecture, analyse si le service PIIA
/// est configuré (sinon simple affichage), écriture de `r` dans l'automate
/// s'il est configuré, suppression du fichier source, envoi FTP, fin.
pub proof fn loi_parcours_complet(r: ResultatPiece, automate: bool)
    ensures
        deroule(Etape::AttenteEcriture, true, true, seq![
            Evenement::FinEcriture { complet: true },
            Evenement::Lu { reussi: true },
            Evenement::Analysee(r),
            Evenement::Fait,
            Evenement::Fait,
            Evenement::Fait,
        ]) == (
            Etape::Termine,
            seq![
                Action::LireFichier,
                Action::AnalyserPiia,
                Action::EcrireAutomate(r),
                Action::SupprimerSource,
                Action::EnvoyerFtp,
                Action::Terminer,
            ],
        ),
        deroule(Etape::AttenteEcriture, true, false, seq![
            Evenement::FinEcriture { complet: true },
            Evenement::Lu { reussi: true },
            Evenement::Analysee(r),
            Evenement::Fait,
            Evenement::Fait,
        ]) == (
            Etape::Termine,
            seq![
                Action::LireFichier,
                Action::AnalyserPiia,
                Action::SupprimerSource,
                Action::EnvoyerFtp,
                Action::Terminer,
            ],
        ),
        deroule(Etape::AttenteEcriture, false, automate, seq![
            Evenement::FinEcriture { complet: true },
            Evenement::Lu { reussi: true },
            Evenement::Fait,
            Evenement::Fait,
            Evenement::Fait,
        ]) == (
            Etape::Termine,
            seq![
                Action::LireFichier,
                Action::AfficherSansAnalyse,
                Action::SupprimerSource,
                Action::EnvoyerFtp,
                Action::Terminer,
            ],
        ),
{
    reveal_with_fuel(deroule, 8);
    {
        let a0: Seq<Evenement> = seq![Evenement::FinEcriture { complet: true }, Evenement::Lu { reussi: true }, Evenement::Analysee(r), Evenement::Fait, Evenement::Fait, Evenement::Fait];
        let a1: Seq<Evenement> = seq![Evenement::Lu { reussi: true }, Evenement::Analysee(r), Evenement::Fait, Evenement::Fait, Evenement::Fait];
        let a2: Seq<Evenement> = seq![Evenement::Analysee(r), Evenement::Fait, Evenement::Fait, Evenement::Fait];
        let a3: Seq<Evenement> = seq![Evenement::Fait, Evenement::Fait, Evenement::Fait];
        let a4: Seq<Evenement> = seq![Evenement::Fait, Evenement::Fait];
        let a5: Seq<Evenement> = seq![Evenement::Fait];
        let a6: Seq<Evenement> = seq![];
        assert(a0.drop_first() =~= a1);
        assert(a1.drop_first() =~= a2);
        assert(a2.drop_first() =~= a3);
        assert(a3.drop_first() =~= a4);
        assert(a4.drop_first() =~= a5);
        assert(a5.drop_first() =~= a6);
        assert(deroule(Etape::AttenteEcriture, true, true, a0).1 =~= seq![Action::LireFichier, Action::AnalyserPiia, Action::EcrireAutomate(r), Action::SupprimerSource, Action::EnvoyerFtp, Action::Terminer]);
    }
    {
        let b0: Seq<Evenement> = seq![Evenement::FinEcriture { complet: true }, Evenement::Lu { reussi: true }, Evenement::Analysee(r), Evenement::Fait, Evenement::Fait];
        let b1: Seq<Evenement> = seq![Evenement::Lu { reussi: true }, Evenement::Analysee(r), Evenement::Fait, Evenement::Fait];
        let b2: Seq<Evenement> = seq![Evenement::Analysee(r), Evenement::Fait, Evenement::Fait];
        let b3: Seq<Evenement> = seq![Evenement::Fait, Evenement::Fait];
        let b4: Seq<Evenement> = seq![Evenement::Fait];
        let b5: Seq<Evenement> = seq![];
        assert(b0.drop_first() =~= b1);
        assert(b1.drop_first() =~= b2);
        assert(b2.drop_first() =~= b3);
        assert(b3.drop_first() =~= b4);
        assert(b4.drop_first() =~= b5);
        assert(deroule(Etape::AttenteEcriture, true, false, b0).1 =~= seq![Action::LireFichier, Action::AnalyserPiia, Action::SupprimerSource, Action::EnvoyerFtp, Action::Terminer]);
    }
    {
        let c0: Seq<Evenement> = seq![Evenement::FinEcriture { complet: true }, Evenement::Lu { reussi: true }, Evenement::Fait, Evenement::Fait, Evenement::Fait];
        let c1: Seq<Evenement> = seq![Evenement::Lu { reussi: true }, Evenement::Fait, Evenement::Fait, Evenement::Fait];
        let c2: Seq<Evenement> = seq![Evenement::Fait, Evenement::Fait, Evenement::Fait];
        let c3: Seq<Evenement> = seq![Evenement::Fait, Evenement::Fait];
        let c4: Seq<Evenement> = seq![Evenement::Fait];
        let c5: Seq<Evenement> = seq![];
        assert(c0.drop_first() =~= c1);
        assert(c1.drop_first() =~= c2);
        assert(c2.drop_first() =~= c3);
        assert(c3.drop_first() =~= c4);
        assert(c4.drop_first() =~= c5);
        assert(deroule(Etape::AttenteEcriture, false, automate, c0).1 =~= seq![Action::LireFichier, Action::AfficherSansAnalyse, Action::SupprimerSource, Action::EnvoyerFtp, Action::Terminer]);
    }
}

/// Étape atteinte et actions rendues sur une suite d'événements.
pub open spec fn deroule(etape: Etape, piia: bool, automate: bool, evs: Seq<Evenement>) -> (
    Etape,
    Seq<Action>,
)
    decreases evs.len(),
{
    if evs.len() == 0 {
        (etape, Seq::empty())
    } else {
        let (suivante, action) = transition(etape, piia, automate, evs[0]);
        let (fin, reste) = deroule(suivante, piia, automate, evs.drop_first());
        (fin, seq![action] + reste)
    }
}

proof fn lemme_longueur(etape: Etape, piia: bool, automate: bool, evs: Seq<Evenement>)
    ensures
        deroule(etape, piia, automate, evs).1.len() == evs.len(),
    decreases evs.len(),
{
    if evs.len() > 0 {
        let suivante = transition(etape, piia, automate, evs[0]).0;
        lemme_longueur(suivante, piia, automate, evs.drop_first());
    }
}

proof fn lemme_termine(piia: bool, automate: bool, evs: Seq<Evenement>)
    ensures
        deroule(Etape::Termine, piia, automate, evs).0 == Etape::Termine,
        forall|i: int|
            0 <= i < evs.len() ==> #[trigger] deroule(Etape::Termine, piia, automate, evs).1[i]
                == Action::Aucune,
    decreases evs.len(),
{
    lemme_longueur(Etape::Termine, piia, automate, evs);
    if evs.len() > 0 {
        lemme_termine(piia, automate, evs.drop_first());
        let reste = deroule(Etape::Termine, piia, automate, evs.drop_first()).1;
        assert forall|i: int| 0 <= i < evs.len() implies #[trigger] deroule(
            Etape::Termine,
            piia,
            automate,
            evs,
        ).1[i] == Action::Aucune by {
            if i > 0 {
                assert(deroule(Etape::Termine, piia, automate, evs).1[i] == reste[i - 1]);
            }
        }
    }
}

proof fn lemme_suppression_avant_envoi(
    etape: Etape,
    piia: bool,
    automate: bool,
    evs: Seq<Evenement>,
)
    requires
        etape != Etape::Suppression,
    ensures
        forall|i: int|
            0 <= i < evs.len() && #[trigger] deroule(etape, piia, automate, evs).1[i]
                == Action::EnvoyerFtp ==> exists|j: int|
                0 <= j < i && #[trigger] deroule(etape, piia, automate, evs).1[j]
                    == Action::SupprimerSource,
    decreases evs.len(),
{
    lemme_longueur(etape, piia, automate, evs);
    if evs.len() > 0 {
        let (suivante, premiere) = transition(etape, piia, automate, evs[0]);
        let queue = evs.drop_first();
        let actions = deroule(etape, piia, automate, evs).1;
        let reste = deroule(suivante, piia, automate, queue).1;
        lemme_longueur(suivante, piia, automate, queue);
        assert(actions[0] == premiere);
        assert forall|i: int| 1 <= i < evs.len() implies #[trigger] actions[i] == reste[i - 1] by {}
        if suivante == Etape::Suppression {
            assert forall|i: int|
                0 <= i < evs.len() && #[trigger] actions[i] == Action::EnvoyerFtp implies exists|
                j: int,
            | 0 <= j < i && #[trigger] actions[j] == Action::SupprimerSource by {
                assert(i > 0);
                assert(actions[0] == Action::SupprimerSource);
            }
        } else {
            lemme_suppression_avant_envoi(suivante, piia, automate, queue);
            assert forall|i: int|
                0 <= i < evs.len() && #[trigger] actions[i] == Action::EnvoyerFtp implies exists|
                j: int,
            | 0 <= j < i && #[trigger] actions[j] == Action::SupprimerSource by {
                assert(i > 0);
                assert(reste[i - 1] == Action::EnvoyerFtp);
                let k = choose|k: int| 0 <= k < i - 1 && #[trigger] reste[k] == Action::SupprimerSource;
                assert(actions[k + 1] == reste[k]);
            }
        }
    }
}

/// Un fichier resté incomplet est supprimé et l'image abandonnée : aucune
/// analyse, écriture dans l'automate, suppression ni envoi ne suit, quels
/// que soient les événements rapportés ensuite.
pub proof fn loi_fichier_incomplet(piia: bool, automate: bool, evs: Seq<Evenement>)
    requires
        evs.len() >= 1,
        evs[0] == (Evenement::FinEcriture { complet: false }),
    ensures
        deroule(Etape::AttenteEcriture, piia, automate, evs).1[0] == Action::SupprimerIncomplet,
        deroule(Etape::AttenteEcriture, piia, automate, evs).0 == Etape::Termine,
        forall|i: int|
            1 <= i < evs.len() ==> #[trigger] deroule(Etape::AttenteEcriture, piia, automate, evs).1[i]
                == Action::Aucune,
{
    let queue = evs.drop_first();
    lemme_termine(piia, automate, queue);
    lemme_longueur(Etape::Termine, piia, automate, queue);
    let actions = deroule(Etape::AttenteEcriture, piia, automate, evs).1;
    let reste = deroule(Etape::Termine, piia, automate, queue).1;
    assert forall|i: int| 1 <= i < evs.len() implies #[trigger] actions[i] == Action::Aucune by {
        assert(actions[i] == reste[i - 1]);
    }
}

/// Un fichier complet mais illisible est abandonné sans être supprimé :
/// après sa lecture, plus aucune action ne suit.
pub proof fn loi_lecture_echouee(piia: bool, automate: bool, evs: Seq<Evenement>)
    requires
        evs.len() >= 2,
        evs[0] == (Evenement::FinEcriture { complet: true }),
        evs[1] == (Evenement::Lu { reussi: false }),
    ensures
        deroule(Etape::AttenteEcriture, piia, automate, evs).1[0] == Action::LireFichier,
        deroule(Etape::AttenteEcriture, piia, automate, evs).1[1] == Action::Abandonner,
        deroule(Etape::AttenteEcriture, piia, automate, evs).0 == Etape::Termine,
        forall|i: int|
            2 <= i < evs.len() ==> #[trigger] deroule(Etape::AttenteEcriture, piia, automate, evs).1[i]
                == Action::Aucune,
{
    let q1 = evs.drop_first();
    let q2 = q1.drop_first();
    assert(q1[0] == evs[1]);
    lemme_termine(piia, automate, q2);
    lemme_longueur(Etape::Termine, piia, automate, q2);
    let actions = deroule(Etape::AttenteEcriture, piia, automate, evs).1;
    let a1 = deroule(Etape::Lecture, piia, automate, q1).1;
    let reste = deroule(Etape::Termine, piia, automate, q2).1;
    assert forall|i: int| 2 <= i < evs.len() implies #[trigger] actions[i] == Action::Aucune by {
        assert(actions[i] == a1[i - 1]);
        assert(a1[i - 1] == reste[i - 2]);
    }
}

/// Le fichier source est toujours supprimé avant l'envoi FTP de l'image,
/// quelle que soit l'issue de l'analyse ou des écritures précédentes.
pub proof fn loi_suppression_avant_envoi(piia: bool, automate: bool, evs: Seq<Evenement>)
    ensures
        forall|i: int|
            0 <= i < evs.len() && #[trigger] deroule(Etape::AttenteEcriture, piia, automate, evs).1[i]
                == Action::EnvoyerFtp ==> exists|j: int|
                0 <= j < i && #[trigger] deroule(Etape::AttenteEcriture, piia, automate, evs).1[j]
                    == Action::SupprimerSource,
{
    lemme_suppression_avant_envoi(Etape::AttenteEcriture, piia, automate, evs);
}

} // verus!
