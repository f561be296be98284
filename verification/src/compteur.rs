//! Compteurs d'images envoyées et d'images distantes supprimées.
//!
//! L'application garde le compteur derrière un verrou partagé et enregistre
//! ses [`CompteurData`] sur disque après chaque changement (écriture
//! atomique) ; elle le recharge au démarrage.

use vstd::prelude::*;

verus! {

/// Ce qui est enregistré sur disque.
#[derive(Clone, Copy, Debug, PartialEq, Eq, Structural)]
pub struct CompteurData {
    pub total_envoye: u64,
    pub total_supprime: u64,
}

/// Compteur persistant.
pub struct CompteurPersistant {
    total_envoye: u64,
    total_supprime: u64,
}

impl View for CompteurPersistant {
    type V = CompteurData;

    closed spec fn view(&self) -> CompteurData {
        CompteurData { total_envoye: self.total_envoye, total_supprime: self.total_supprime }
    }
}

/// État d'un compteur repris de données enregistrées, ou à zéro sans données.
pub open spec fn etat_initial(donnees: Option<CompteurData>) -> CompteurData {
    match donnees {
        Some(d) => d,
        None => CompteurData { total_envoye: 0, total_supprime: 0 },
    }
}

impl CompteurPersistant {
    /// Compteur repris de données enregistrées, ou à zéro quand il n'y en a
    /// pas (fichier absent ou illisible).
    pub fn new(donnees: Option<CompteurData>) -> (r: CompteurPersistant)
        ensures
            r@ == etat_initial(donnees),
    {
        match donnees {
            Some(d) => CompteurPersistant {
                total_envoye: d.total_envoye,
                total_supprime: d.total_supprime,
            },
            None => CompteurPersistant { total_envoye: 0, total_supprime: 0 },
        }
    }

    /// Ce qu'il faut enregistrer.
    pub fn donnees(&self) -> (r: CompteurData)
        ensures
            r == self@,
    {
        CompteurData { total_envoye: self.total_envoye, total_supprime: self.total_supprime }
    }

    /// Une image de plus a été envoyée.
    pub fn incrementer_envoye(&mut self)
        requires
            old(self)@.total_envoye < u64::MAX,
        ensures
            final(self)@.total_envoye == old(self)@.total_envoye + 1,
            final(self)@.total_supprime == old(self)@.total_supprime,
    {
        self.total_envoye = self.total_envoye + 1;
    }

    /// `n` images distantes de plus ont été supprimées.
    pub fn incrementer_supprime_par(&mut self, n: u64)
        requires
            old(self)@.total_supprime + n <= u64::MAX,
        ensures
            final(self)@.total_supprime == old(self)@.total_supprime + n,
            final(self)@.total_envoye == old(self)@.total_envoye,
    {
        self.total_supprime = self.total_supprime + n;
    }

    /// Remet les deux compteurs à zéro.
    pub fn remettre_a_zero(&mut self)
        ensures
            final(self)@ == (CompteurData { total_envoye: 0, total_supprime: 0 }),
    {
        self.total_envoye = 0;
        self.total_supprime = 0;
    }

    pub fn total_envoye(&self) -> (r: u64)
        ensures
            r == self@.total_envoye,
    {
        self.total_envoye
    }

    pub fn total_supprime(&self) -> (r: u64)
        ensures
            r == self@.total_supprime,
    {
        self.total_supprime
    }
}

/// Recharger ce qu'un compteur a enregistré (`donnees`) redonne ce compteur.
pub proof fn loi_rechargement(c: CompteurPersistant)
    ensures
        etat_initial(Some(c@)) == c@,
{
}

} // verus!
