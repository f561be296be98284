//! Envoi des images vers le serveur FTP distant, tenu en file (FIFO) : quand
//! le nombre de fichiers distants atteint la limite, les plus anciens (les
//! premiers listés) sont supprimés avant l'envoi.
//!
//! Ce module décide ; les commandes FTP (connexion, listing, suppression,
//! envoi, création de dossiers) sont passées par l'application.

use vstd::prelude::*;
use crate::texte::{
    sans_car_debut, sans_car_fin, retirer_bords, decoupage, decouper, vues, memes_textes,
    ecriture_decimale, ecrire_decimal,
};

verus! {

// ---------------------------------------------------------------------------
// Adresses et chemins
// ---------------------------------------------------------------------------

/// Adresse de connexion « hôte:port ».
pub open spec fn adresse_serveur(host: Seq<char>, port: u16) -> Seq<char> {
    host + seq![':'] + ecriture_decimale(port as nat)
}

/// Adresse de connexion « hôte:port ».
pub fn adresse_ftp(host: &str, port: u16) -> (r: String)
    ensures
        r@ == adresse_serveur(host@, port),
{
    proof {
        reveal_strlit(":");
    }
    let r = String::from_str(host).concat(":");
    let p = ecrire_decimal(port as u64);
    let r = r.concat(p.as_str());
    assert(r@ =~= adresse_serveur(host@, port));
    r
}

/// Chemin distant d'un fichier du dossier.
pub open spec fn chemin_dans(dossier: Seq<char>, nom: Seq<char>) -> Seq<char> {
    dossier + seq!['/'] + nom
}

/// Chemin distant « dossier/nom ».
pub fn chemin_distant(dossier: &str, nom: &str) -> (r: String)
    ensures
        r@ == chemin_dans(dossier@, nom@),
{
    proof {
        reveal_strlit("/");
    }
    let r = String::from_str(dossier).concat("/").concat(nom);
    assert(r@ =~= chemin_dans(dossier@, nom@));
    r
}

/// Chemins cumulés « /a », « /a/b », … des morceaux donnés.
pub open spec fn chemins_cumules(morceaux: Seq<Seq<char>>) -> Seq<Seq<char>>
    decreases morceaux.len(),
{
    if morceaux.len() == 0 {
        Seq::empty()
    } else {
        let avant = chemins_cumules(morceaux.drop_last());
        let base = if avant.len() == 0 {
            Seq::<char>::empty()
        } else {
            avant.last()
        };
        avant.push(base + seq!['/'] + morceaux.last())
    }
}

proof fn lemme_longueur_chemins(morceaux: Seq<Seq<char>>)
    ensures
        chemins_cumules(morceaux).len() == morceaux.len(),
    decreases morceaux.len(),
{
    if morceaux.len() > 0 {
        lemme_longueur_chemins(morceaux.drop_last());
    }
}

/// Dossiers à parcourir, du plus haut au plus profond, pour créer `chemin`
/// (ses `/` de bord ôtés) : un chemin vide donne le seul dossier « / ».
pub open spec fn dossiers_a_creer(chemin: Seq<char>) -> Seq<Seq<char>> {
    chemins_cumules(decoupage(sans_car_fin(sans_car_debut(chemin, '/'), '/'), '/'))
}

/// Dossiers successifs à créer pour atteindre `chemin`.
pub fn chemins_dossier(chemin: &str) -> (r: Vec<String>)
    ensures
        vues(r@) == dossiers_a_creer(chemin@),
{
    proof {
        reveal_strlit("/");
    }
    let parties = decouper(retirer_bords(chemin, '/'), '/');
    let ghost pv = vues(parties@);
    let mut r: Vec<String> = Vec::new();
    let mut courant = String::new();
    let mut i: usize = 0;
    while i < parties.len()
        invariant
            i <= parties@.len(),
            pv == vues(parties@),
            vues(r@) == chemins_cumules(pv.subrange(0, i as int)),
            courant@ == (if i == 0 {
                Seq::<char>::empty()
            } else {
                vues(r@).last()
            }),
            r@.len() == i,
        decreases parties@.len() - i,
    {
        proof {
            reveal_strlit("/");
            lemme_longueur_chemins(pv.subrange(0, i as int));
            assert(pv.subrange(0, i + 1).drop_last() =~= pv.subrange(0, i as int));
            assert(pv.subrange(0, i + 1).last() == parties[i as int]@);
        }
        let ghost ancien = courant@;
        let ghost attendu = chemins_cumules(pv.subrange(0, i + 1));
        assert("/"@ =~= seq!['/']);
        courant = courant.concat("/").concat(parties[i].as_str());
        assert(courant@ =~= ancien + seq!['/'] + pv[i as int]);
        assert(attendu == chemins_cumules(pv.subrange(0, i as int)).push(ancien + seq!['/'] + pv[i as int]));
        let ghost avant = vues(r@);
        r.push(courant.clone());
        assert(vues(r@) =~= avant.push(courant@));
        i = i + 1;
    }
    assert(pv.subrange(0, parties@.len() as int) =~= pv);
    r
}

// ---------------------------------------------------------------------------
// Nombre de fichiers distants
// ---------------------------------------------------------------------------

/// Nombre de fichiers distants connu du client ; inconnu après une
/// (re)connexion ou un échec d'envoi, ce qui force un listing.
pub struct SuiviDistant {
    pub nb_fichiers_distants: Option<usize>,
}

/// Le listing (et la purge) est nécessaire si le nombre est inconnu ou si un
/// envoi de plus atteindrait la limite.
pub open spec fn purge_necessaire(nb: Option<usize>, max_images: usize) -> bool {
    match nb {
        None => true,
        Some(n) => n + 1 >= max_images,
    }
}

/// Suite à donner à un envoi.
#[derive(Debug, Clone, Copy, PartialEq, Eq, Structural)]
pub enum ActionApresEnvoi {
    /// Envoi réussi : compter une image envoyée.
    CompterEnvoi,
    /// Envoi échoué : abandonner la connexion, probablement cassée.
    AbandonnerConnexion,
}

impl SuiviDistant {
    /// Nombre inconnu.
    pub fn new() -> (r: SuiviDistant)
        ensures
            r.nb_fichiers_distants is None,
    {
        SuiviDistant { nb_fichiers_distants: None }
    }

    /// Faut-il lister (et purger) le dossier distant avant l'envoi ?
    pub fn besoin_fifo(&self, max_images: usize) -> (r: bool)
        requires
            self.nb_fichiers_distants matches Some(n) ==> n < usize::MAX,
        ensures
            r == purge_necessaire(self.nb_fichiers_distants, max_images),
    {
        match self.nb_fichiers_distants {
            None => true,
            Some(n) => n + 1 >= max_images,
        }
    }

    /// Nouvelle connexion : le nombre redevient inconnu.
    pub fn reconnexion(&mut self)
        ensures
            final(self).nb_fichiers_distants is None,
    {
        self.nb_fichiers_distants = None;
    }

    /// Purge terminée : `restants` fichiers sont connus sur le serveur.
    pub fn apres_purge(&mut self, restants: usize)
        ensures
            final(self).nb_fichiers_distants == Some(restants),
    {
        self.nb_fichiers_distants = Some(restants);
    }

    /// Issue d'un envoi : un succès compte une image et un fichier distant de
    /// plus (si leur nombre était connu) ; un échec fait abandonner la
    /// connexion et rend le nombre inconnu.
    pub fn issue_envoi(&mut self, succes: bool) -> (r: ActionApresEnvoi)
        requires
            succes ==> (old(self).nb_fichiers_distants matches Some(n) ==> n < usize::MAX),
        ensures
            succes ==> r == ActionApresEnvoi::CompterEnvoi && final(self).nb_fichiers_distants
                == (match old(self).nb_fichiers_distants {
                Some(n) => Some((n + 1) as usize),
                None => None,
            }),
            !succes ==> r == ActionApresEnvoi::AbandonnerConnexion
                && final(self).nb_fichiers_distants is None,
    {
        if succes {
            self.envoi_reussi();
            ActionApresEnvoi::CompterEnvoi
        } else {
            self.envoi_echoue();
            ActionApresEnvoi::AbandonnerConnexion
        }
    }

    /// Envoi réussi : un fichier de plus, si le nombre était connu.
    pub fn envoi_reussi(&mut self)
        requires
            old(self).nb_fichiers_distants matches Some(n) ==> n < usize::MAX,
        ensures
            final(self).nb_fichiers_distants == (match old(self).nb_fichiers_distants {
                Some(n) => Some((n + 1) as usize),
                None => None,
            }),
    {
        self.nb_fichiers_distants = match self.nb_fichiers_distants {
            Some(n) => Some(n + 1),
            None => None,
        };
    }

    /// Envoi échoué : la connexion est abandonnée, le nombre devient inconnu.
    pub fn envoi_echoue(&mut self)
        ensures
            final(self).nb_fichiers_distants is None,
    {
        self.nb_fichiers_distants = None;
    }
}

// ---------------------------------------------------------------------------
// Purge FIFO
// ---------------------------------------------------------------------------

/// Le listing sans les entrées « . » et « .. ».
pub open spec fn entrees_utiles(liste: Seq<Seq<char>>) -> Seq<Seq<char>>
    decreases liste.len(),
{
    if liste.len() == 0 {
        Seq::empty()
    } else {
        let avant = entrees_utiles(liste.drop_last());
        let e = liste.last();
        if e == seq!['.'] || e == seq!['.', '.'] {
            avant
        } else {
            avant.push(e)
        }
    }
}

/// Fichiers restant après suppression des plus anciens, tant que leur
/// nombre atteint la limite.
pub open spec fn apres_purge_complete(fichiers: Seq<Seq<char>>, max_images: nat) -> Seq<Seq<char>>
    decreases fichiers.len(),
{
    if fichiers.len() > 0 && fichiers.len() >= max_images {
        apres_purge_complete(fichiers.drop_first(), max_images)
    } else {
        fichiers
    }
}

/// Purge en cours : fichiers distants restants, du plus ancien au plus récent,
/// et nombre de suppressions faites.
pub struct PurgeFifo {
    fichiers: Vec<String>,
    nb_supprimes: u64,
}

impl PurgeFifo {
    pub closed spec fn fichiers(&self) -> Seq<Seq<char>> {
        vues(self.fichiers@)
    }

    pub closed spec fn supprimes(&self) -> nat {
        self.nb_supprimes as nat
    }

    /// Purge sur un listing du dossier distant (dans l'ordre du serveur).
    pub fn new(listing: Vec<String>) -> (r: PurgeFifo)
        ensures
            r.fichiers() == entrees_utiles(vues(listing@)),
            r.supprimes() == 0,
    {
        proof {
            reveal_strlit(".");
            reveal_strlit("..");
        }
        let ghost lv = vues(listing@);
        let mut fichiers: Vec<String> = Vec::new();
        let mut i: usize = 0;
        while i < listing.len()
            invariant
                i <= listing@.len(),
                lv == vues(listing@),
                vues(fichiers@) == entrees_utiles(lv.subrange(0, i as int)),
            decreases listing@.len() - i,
        {
            assert(lv.subrange(0, i + 1).drop_last() =~= lv.subrange(0, i as int));
            assert(lv.subrange(0, i + 1).last() == listing[i as int]@);
            let nom = listing[i].as_str();
            proof {
                reveal_strlit(".");
                reveal_strlit("..");
            }
            assert(".."@ =~= seq!['.', '.']);
            assert("."@ =~= seq!['.']);
            if !memes_textes(nom, ".") && !memes_textes(nom, "..") {
                let ghost avant = vues(fichiers@);
                fichiers.push(listing[i].clone());
                assert(vues(fichiers@) =~= avant.push(listing[i as int]@));
            }
            i = i + 1;
        }
        assert(lv.subrange(0, listing@.len() as int) =~= lv);
        PurgeFifo { fichiers, nb_supprimes: 0 }
    }

    /// Purge sans listing (le serveur a refusé de lister) : rien à supprimer.
    pub fn sans_listing() -> (r: PurgeFifo)
        ensures
            r.fichiers() == Seq::<Seq<char>>::empty(),
            r.supprimes() == 0,
    {
        let r = PurgeFifo { fichiers: Vec::new(), nb_supprimes: 0 };
        assert(r.fichiers() =~= Seq::<Seq<char>>::empty());
        r
    }

    /// Fichier à supprimer maintenant : le plus ancien, tant que le nombre de
    /// fichiers atteint la limite.
    pub fn prochaine_suppression(&self, max_images: usize) -> (r: Option<String>)
        ensures
            match r {
                Some(nom) => {
                    &&& self.fichiers().len() > 0
                    &&& self.fichiers().len() >= max_images
                    &&& nom@ == self.fichiers()[0]
                },
                None => apres_purge_complete(self.fichiers(), max_images as nat) == self.fichiers(),
            },
    {
        if self.fichiers.len() > 0 && self.fichiers.len() >= max_images {
            assert(self.fichiers[0]@ == self.fichiers()[0]);
            Some(self.fichiers[0].clone())
        } else {
            None
        }
    }

    /// Le plus ancien fichier a été supprimé sur le serveur.
    pub fn suppression_reussie(&mut self, max_images: usize)
        requires
            old(self).fichiers().len() > 0,
            old(self).fichiers().len() >= max_images,
            old(self).supprimes() < u64::MAX,
        ensures
            final(self).fichiers() == old(self).fichiers().drop_first(),
            final(self).supprimes() == old(self).supprimes() + 1,
            apres_purge_complete(final(self).fichiers(), max_images as nat) == apres_purge_complete(
                old(self).fichiers(),
                max_images as nat,
            ),
    {
        let ghost avant = self.fichiers@;
        self.fichiers.remove(0);
        assert(vues(self.fichiers@) =~= vues(avant).drop_first());
        self.nb_supprimes = self.nb_supprimes + 1;
    }

    /// Nombre de suppressions faites.
    pub fn nb_supprimes(&self) -> (r: u64)
        ensures
            r == self.supprimes(),
    {
        self.nb_supprimes
    }

    /// Nombre de fichiers distants restants.
    pub fn nb_restants(&self) -> (r: usize)
        ensures
            r == self.fichiers().len(),
    {
        self.fichiers.len()
    }
}

/// Une purge menée à son terme laisse les fichiers les plus récents, au plus
/// `max_images - 1` d'entre eux (aucun si la limite est nulle) : l'envoi qui
/// suit ne dépasse pas la limite.
pub proof fn loi_purge_fifo(fichiers: Seq<Seq<char>>, max_images: nat)
    ensures
        ({
            let k = if max_images == 0 {
                fichiers.len() as int
            } else if fichiers.len() >= max_images {
                fichiers.len() - max_images + 1
            } else {
                0
            };
            apres_purge_complete(fichiers, max_images) == fichiers.subrange(k, fichiers.len() as int)
        }),
        max_images > 0 ==> apres_purge_complete(fichiers, max_images).len() < max_images,
        max_images == 0 ==> apres_purge_complete(fichiers, max_images).len() == 0,
    decreases fichiers.len(),
{
    if fichiers.len() > 0 && fichiers.len() >= max_images {
        loi_purge_fifo(fichiers.drop_first(), max_images);
        let d = fichiers.drop_first();
        let k2 = if max_images == 0 {
            d.len() as int
        } else if d.len() >= max_images {
            d.len() - max_images + 1
        } else {
            0
        };
        assert(d.subrange(k2, d.len() as int) =~= fichiers.subrange(k2 + 1, fichiers.len() as int));
    } else {
        assert(fichiers.subrange(0, fichiers.len() as int) =~= fichiers);
    }
}

} // verus!
