//! Driver Allen-Bradley via PCCC sur EtherNet/IP (MicroLogix / SLC-500).
//!
//! Mêmes valeurs que PIIA :
//!
//! | Tag              | Valeur                                         |
//! |------------------|------------------------------------------------|
//! | `result_tag`     | 1 = OK, 2 = NOK, 0 = arrêt communication       |
//! | `heartbeat_tag`  | Compteur 1..32767, incrémenté chaque seconde   |
//!
//! Ce module tient l'état du driver et décide des écritures ; la connexion
//! TCP, le fil du heartbeat et l'attente d'une seconde sont dans
//! l'application.

use vstd::prelude::*;
use super::pccc::{PcccAddress, ErreurAdresse, ErreurAdresseVue, analyse_adresse};
use super::{ResultatPiece, code_pour, code_resultat};

verus! {

/// Valeur suivante du heartbeat : 1..32767, puis retour à 1.
pub open spec fn heartbeat_suivant(courant: i16) -> i16 {
    if courant >= i16::MAX {
        1
    } else {
        (courant + 1) as i16
    }
}

/// Valeur suivante du heartbeat.
pub fn prochain_heartbeat(courant: i16) -> (r: i16)
    ensures
        r == heartbeat_suivant(courant),
        courant >= 0 ==> 1 <= r <= i16::MAX,
{
    if courant >= i16::MAX {
        1
    } else {
        courant + 1
    }
}

/// Valeur du heartbeat après `k` secondes de connexion (0 à la connexion).
pub open spec fn heartbeat_apres(k: nat) -> i16
    decreases k,
{
    if k == 0 {
        0
    } else {
        heartbeat_suivant(heartbeat_apres((k - 1) as nat))
    }
}

/// Depuis la connexion, le heartbeat écrit vaut 1, 2, …, 32767, puis de
/// nouveau 1, 2, … : jamais 0 ni négatif.
pub proof fn loi_sequence_heartbeat(k: nat)
    requires
        k >= 1,
    ensures
        heartbeat_apres(k) as int == (k - 1) % 32767 + 1,
        1 <= heartbeat_apres(k) <= i16::MAX,
    decreases k,
{
    if k == 1 {
        assert(heartbeat_apres(0) == 0);
        assert(heartbeat_apres(1) == heartbeat_suivant(0));
    } else {
        loi_sequence_heartbeat((k - 1) as nat);
        let v = heartbeat_apres((k - 1) as nat);
        assert(heartbeat_apres(k) == heartbeat_suivant(v));
        let a = (k - 2) as int;
        if a % 32767 == 32766 {
            assert((a + 1) % 32767 == 0) by (nonlinear_arith)
                requires
                    a >= 0,
                    a % 32767 == 32766,
            ;
        } else {
            assert((a + 1) % 32767 == a % 32767 + 1) by (nonlinear_arith)
                requires
                    a >= 0,
                    a % 32767 < 32766,
            ;
        }
    }
}

/// État du driver : adresses des tags, connexion, dernier heartbeat écrit.
pub struct AllenBradleyDriver {
    pub address: String,
    pub result_tag_str: String,
    pub heartbeat_tag_str: String,
    pub result_address: PcccAddress,
    pub heartbeat_address: PcccAddress,
    pub connected: bool,
    pub heartbeat: i16,
}

impl AllenBradleyDriver {
    /// Lit les deux tags ; le tag résultat est lu le premier.
    pub fn new(address: &str, result_tag: &str, heartbeat_tag: &str) -> (r: Result<
        AllenBradleyDriver,
        ErreurAdresse,
    >)
        ensures
            match r {
                Ok(d) => {
                    &&& analyse_adresse(result_tag@) == Ok::<PcccAddress, ErreurAdresseVue>(
                        d.result_address,
                    )
                    &&& analyse_adresse(heartbeat_tag@) == Ok::<PcccAddress, ErreurAdresseVue>(
                        d.heartbeat_address,
                    )
                    &&& d.address@ == address@
                    &&& d.result_tag_str@ == result_tag@
                    &&& d.heartbeat_tag_str@ == heartbeat_tag@
                    &&& !d.connected
                    &&& d.heartbeat == 0
                },
                Err(e) => {
                    ||| analyse_adresse(result_tag@) == Err::<PcccAddress, ErreurAdresseVue>(e@)
                    ||| (analyse_adresse(result_tag@) is Ok && analyse_adresse(heartbeat_tag@)
                        == Err::<PcccAddress, ErreurAdresseVue>(e@))
                },
            },
    {
        let result_address = match PcccAddress::parse(result_tag) {
            Ok(a) => a,
            Err(e) => {
                return Err(e);
            },
        };
        let heartbeat_address = match PcccAddress::parse(heartbeat_tag) {
            Ok(a) => a,
            Err(e) => {
                return Err(e);
            },
        };
        Ok(AllenBradleyDriver {
            address: String::from_str(address),
            result_tag_str: String::from_str(result_tag),
            heartbeat_tag_str: String::from_str(heartbeat_tag),
            result_address,
            heartbeat_address,
            connected: false,
            heartbeat: 0,
        })
    }

    /// La session PCCC vient d'être ouverte : le heartbeat repart de 0.
    pub fn connexion_etablie(&mut self)
        ensures
            final(self).connected,
            final(self).heartbeat == 0,
            final(self).address == old(self).address,
            final(self).result_address == old(self).result_address,
            final(self).heartbeat_address == old(self).heartbeat_address,
    {
        self.connected = true;
        self.heartbeat = 0;
    }

    /// Une seconde s'est écoulée : rend la valeur de heartbeat à écrire, ou
    /// rien si le driver n'est plus connecté (le fil s'arrête alors).
    pub fn tick_heartbeat(&mut self) -> (r: Option<i16>)
        ensures
            !old(self).connected ==> r is None && final(self).heartbeat == old(self).heartbeat,
            old(self).connected ==> r == Some(heartbeat_suivant(old(self).heartbeat))
                && final(self).heartbeat == heartbeat_suivant(old(self).heartbeat),
            old(self).heartbeat >= 0 ==> 0 <= final(self).heartbeat,
            r matches Some(v) ==> (old(self).heartbeat >= 0 ==> 1 <= v <= i16::MAX),
            final(self).connected == old(self).connected,
            final(self).result_address == old(self).result_address,
            final(self).heartbeat_address == old(self).heartbeat_address,
    {
        if !self.connected {
            return None;
        }
        let v = prochain_heartbeat(self.heartbeat);
        self.heartbeat = v;
        Some(v)
    }

    /// Avant d'écrire un résultat : la connexion est-elle à rétablir ?
    pub fn doit_reconnecter(&self) -> (r: bool)
        ensures
            r == !self.connected,
    {
        !self.connected
    }

    /// Une écriture a échoué : la connexion est tenue pour perdue.
    pub fn connexion_perdue(&mut self)
        ensures
            !final(self).connected,
            final(self).heartbeat == old(self).heartbeat,
            final(self).result_address == old(self).result_address,
            final(self).heartbeat_address == old(self).heartbeat_address,
    {
        self.connected = false;
    }

    /// Écriture du résultat d'une pièce : adresse du tag résultat et valeur.
    /// Un timeout est signalé comme NOK, par sécurité.
    pub fn ecriture_resultat(&self, resultat: ResultatPiece) -> (r: (PcccAddress, i16))
        ensures
            r.0 == self.result_address,
            r.1 == code_pour(resultat),
    {
        (self.result_address, code_resultat(resultat))
    }

    /// Déconnexion : le fil de heartbeat doit s'arrêter, puis heartbeat et
    /// résultat sont remis à 0, dans cet ordre.
    pub fn ecritures_deconnexion(&mut self) -> (r: Vec<(PcccAddress, i16)>)
        ensures
            !final(self).connected,
            r@ == seq![(old(self).heartbeat_address, 0i16), (old(self).result_address, 0i16)],
            final(self).result_address == old(self).result_address,
            final(self).heartbeat_address == old(self).heartbeat_address,
    {
        self.connected = false;
        let mut r: Vec<(PcccAddress, i16)> = Vec::new();
        r.push((self.heartbeat_address, 0));
        r.push((self.result_address, 0));
        assert(r@ =~= seq![(old(self).heartbeat_address, 0i16), (old(self).result_address, 0i16)]);
        r
    }
}

} // verus!
