//! Surveillance du répertoire d'arrivée : tri des fichiers par extension,
//! anti-rebond des notifications et attente de la fin d'écriture.
//!
//! Les instants sont donnés en nanosecondes depuis un instant de référence
//! quelconque ; l'observation du système de fichiers et l'horloge sont dans
//! l'application.

use vstd::prelude::*;
use crate::texte::{minuscules, en_minuscules, memes_textes, vues};

verus! {

// ---------------------------------------------------------------------------
// Extensions
// ---------------------------------------------------------------------------

/// Extension comparée à la liste : « . » suivi de l'extension du fichier en
/// minuscules ; texte vide quand le fichier n'a pas d'extension.
pub open spec fn extension_comparee(extension: Option<Seq<char>>) -> Seq<char> {
    match extension {
        Some(e) => seq!['.'] + minuscules(e),
        None => Seq::empty(),
    }
}

/// L'extension comparée est l'extension entière, mise en minuscules, après
/// un point ; sans extension, c'est le texte vide.
pub proof fn loi_extension_entiere(e: Seq<char>)
    ensures
        extension_comparee(Some(e)) == seq!['.'] + minuscules(e),
        extension_comparee(Some(e)).len() == minuscules(e).len() + 1,
        extension_comparee(Some(e))[0] == '.',
        extension_comparee(Some(e)).subrange(1, extension_comparee(Some(e)).len() as int)
            == minuscules(e),
        extension_comparee(None) == Seq::<char>::empty(),
{
    assert(extension_comparee(Some(e)).subrange(1, extension_comparee(Some(e)).len() as int)
        =~= minuscules(e));
}

/// Vue d'un texte facultatif emprunté.
pub open spec fn vue_option_str(o: Option<&str>) -> Option<Seq<char>> {
    match o {
        Some(s) => Some(s@),
        None => None,
    }
}

/// Genre d'un événement du répertoire surveillé.
#[derive(Debug, Clone, Copy, PartialEq, Eq, Structural)]
pub enum GenreEvenement {
    /// Un fichier a été créé.
    Creation,
    /// Un fichier a été modifié.
    Modification,
    /// Tout autre événement (accès, suppression, renommage...).
    Autre,
}

/// Seules les créations et les modifications de fichiers sont examinées.
pub fn evenement_examine(genre: GenreEvenement) -> (r: bool)
    ensures
        r == (genre == GenreEvenement::Creation || genre == GenreEvenement::Modification),
{
    match genre {
        GenreEvenement::Creation => true,
        GenreEvenement::Modification => true,
        GenreEvenement::Autre => false,
    }
}

/// Le fichier d'extension `extension` (sans le point) est-il surveillé ?
pub fn extension_acceptee(extension: Option<&str>, extensions: &Vec<String>) -> (r: bool)
    ensures
        r == vues(extensions@).contains(extension_comparee(vue_option_str(extension))),
        extension matches Some(e) ==> (r <==> vues(extensions@).contains(
            seq!['.'] + minuscules(e@),
        )),
        extension is None ==> (r <==> vues(extensions@).contains(Seq::<char>::empty())),
{
    proof {
        if let Some(e) = extension {
            loi_extension_entiere(e@);
        }
    }
    let cherchee = match extension {
        Some(e) => {
            proof {
                reveal_strlit(".");
            }
            let r = String::from_str(".").concat(en_minuscules(e).as_str());
            assert(r@ =~= seq!['.'] + minuscules(e@));
            r
        },
        None => String::new(),
    };
    let ghost v = vues(extensions@);
    let mut i: usize = 0;
    while i < extensions.len()
        invariant
            i <= extensions@.len(),
            v == vues(extensions@),
            cherchee@ == extension_comparee(vue_option_str(extension)),
            forall|j: int| 0 <= j < i ==> v[j] != cherchee@,
        decreases extensions@.len() - i,
    {
        assert(v[i as int] == extensions[i as int]@);
        if memes_textes(extensions[i].as_str(), cherchee.as_str()) {
            return true;
        }
        i = i + 1;
    }
    false
}

// ---------------------------------------------------------------------------
// Anti-rebond
// ---------------------------------------------------------------------------

/// Délai minimum entre deux signalements du même fichier (2 s).
pub const DELAI_ANTI_REBOND_NS: u64 = 2_000_000_000;

/// Âge au-delà duquel une entrée est oubliée lors d'une purge (60 s).
pub const AGE_OUBLI_NS: u64 = 60_000_000_000;

/// Nombre d'entrées au-delà duquel les entrées anciennes sont purgées.
pub const SEUIL_PURGE: usize = 500;

/// Temps écoulé de `depuis` à `maintenant`, nul si `depuis` est plus tard.
pub open spec fn ecoule(maintenant: u64, depuis: u64) -> nat {
    if maintenant >= depuis {
        (maintenant - depuis) as nat
    } else {
        0
    }
}

/// Entrées dont l'âge est inférieur à `AGE_OUBLI_NS`.
pub open spec fn recentes(m: Map<Seq<char>, u64>, maintenant: u64) -> Map<Seq<char>, u64> {
    Map::new(
        |k: Seq<char>| m.contains_key(k) && ecoule(maintenant, m[k]) < AGE_OUBLI_NS,
        |k: Seq<char>| m[k],
    )
}

/// Le fichier a été signalé il y a moins de `DELAI_ANTI_REBOND_NS`.
pub open spec fn signale_recemment(m: Map<Seq<char>, u64>, chemin: Seq<char>, maintenant: u64) -> bool {
    m.contains_key(chemin) && ecoule(maintenant, m[chemin]) < DELAI_ANTI_REBOND_NS
}

/// Instants des derniers signalements après une notification pour `chemin`.
pub open spec fn apres_notification(m: Map<Seq<char>, u64>, chemin: Seq<char>, maintenant: u64) -> Map<
    Seq<char>,
    u64,
> {
    if signale_recemment(m, chemin, maintenant) {
        m
    } else {
        let m2 = m.insert(chemin, maintenant);
        if m2.dom().len() > SEUIL_PURGE {
            recentes(m2, maintenant)
        } else {
            m2
        }
    }
}

/// Table des derniers signalements, un par chemin.
pub struct AntiRebond {
    envois: Vec<(String, u64)>,
}

/// Table d'une suite d'entrées.
pub open spec fn table(s: Seq<(String, u64)>) -> Map<Seq<char>, u64>
    decreases s.len(),
{
    if s.len() == 0 {
        Map::empty()
    } else {
        table(s.drop_last()).insert(s.last().0@, s.last().1)
    }
}

/// Aucun chemin n'y figure deux fois.
pub open spec fn cles_uniques(s: Seq<(String, u64)>) -> bool {
    forall|i: int, j: int| 0 <= i < j < s.len() ==> s[i].0@ != s[j].0@
}

proof fn lemme_table_cles(s: Seq<(String, u64)>)
    requires
        cles_uniques(s),
    ensures
        table(s).dom().finite(),
        table(s).dom().len() == s.len(),
        forall|k: Seq<char>|
            table(s).contains_key(k) <==> exists|i: int| 0 <= i < s.len() && s[i].0@ == k,
        forall|i: int| 0 <= i < s.len() ==> #[trigger] table(s)[s[i].0@] == s[i].1,
    decreases s.len(),
{
    if s.len() > 0 {
        let d = s.drop_last();
        assert(cles_uniques(d)) by {
            assert forall|i: int, j: int| 0 <= i < j < d.len() implies d[i].0@ != d[j].0@ by {
                assert(d[i] == s[i] && d[j] == s[j]);
            }
        }
        lemme_table_cles(d);
        let k = s.last().0@;
        assert(!table(d).contains_key(k)) by {
            if table(d).contains_key(k) {
                let i = choose|i: int| 0 <= i < d.len() && d[i].0@ == k;
                assert(s[i].0@ == s[s.len() - 1].0@);
            }
        }
        assert forall|k2: Seq<char>|
            table(s).contains_key(k2) implies exists|i: int| 0 <= i < s.len() && s[i].0@ == k2 by {
            if k2 != k {
                let i = choose|i: int| 0 <= i < d.len() && d[i].0@ == k2;
                assert(s[i] == d[i]);
            } else {
                assert(s[s.len() - 1].0@ == k2);
            }
        }
        assert forall|k2: Seq<char>|
            (exists|i: int| 0 <= i < s.len() && s[i].0@ == k2) implies table(s).contains_key(k2) by {
            let i = choose|i: int| 0 <= i < s.len() && s[i].0@ == k2;
            if i < s.len() - 1 {
                assert(d[i] == s[i]);
            }
        }
        assert forall|i: int| 0 <= i < s.len() implies #[trigger] table(s)[s[i].0@] == s[i].1 by {
            if i < s.len() - 1 {
                assert(d[i] == s[i]);
                assert(s[i].0@ != k);
            }
        }
    }
}

proof fn lemme_table_mise_a_jour(s: Seq<(String, u64)>, i: int, e: (String, u64))
    requires
        cles_uniques(s),
        0 <= i < s.len(),
        e.0@ == s[i].0@,
    ensures
        table(s.update(i, e)) == table(s).insert(e.0@, e.1),
        cles_uniques(s.update(i, e)),
    decreases s.len(),
{
    let u = s.update(i, e);
    assert(cles_uniques(u)) by {
        assert forall|a: int, b: int| 0 <= a < b < u.len() implies u[a].0@ != u[b].0@ by {
            assert(u[a].0@ == s[a].0@ && u[b].0@ == s[b].0@);
        }
    }
    let d = s.drop_last();
    if i == s.len() - 1 {
        assert(u.drop_last() =~= d);
        assert(table(u) =~= table(s).insert(e.0@, e.1));
    } else {
        assert(cles_uniques(d)) by {
            assert forall|a: int, b: int| 0 <= a < b < d.len() implies d[a].0@ != d[b].0@ by {
                assert(d[a] == s[a] && d[b] == s[b]);
            }
        }
        lemme_table_mise_a_jour(d, i, e);
        assert(u.drop_last() =~= d.update(i, e));
        assert(s.last().0@ != e.0@) by {
            assert(s[i].0@ != s[s.len() - 1].0@);
        }
        assert(table(u) =~= table(s).insert(e.0@, e.1));
    }
}

/// Entrées récentes d'une suite, dans l'ordre.
pub open spec fn entrees_recentes(s: Seq<(String, u64)>, maintenant: u64) -> Seq<(String, u64)>
    decreases s.len(),
{
    if s.len() == 0 {
        s
    } else {
        let avant = entrees_recentes(s.drop_last(), maintenant);
        if ecoule(maintenant, s.last().1) < AGE_OUBLI_NS {
            avant.push(s.last())
        } else {
            avant
        }
    }
}

proof fn lemme_table_recentes(s: Seq<(String, u64)>, maintenant: u64)
    requires
        cles_uniques(s),
    ensures
        table(entrees_recentes(s, maintenant)) == recentes(table(s), maintenant),
        cles_uniques(entrees_recentes(s, maintenant)),
        forall|x: (String, u64)| entrees_recentes(s, maintenant).contains(x) ==> s.contains(x),
    decreases s.len(),
{
    if s.len() > 0 {
        let d = s.drop_last();
        assert(cles_uniques(d)) by {
            assert forall|a: int, b: int| 0 <= a < b < d.len() implies d[a].0@ != d[b].0@ by {
                assert(d[a] == s[a] && d[b] == s[b]);
            }
        }
        lemme_table_recentes(d, maintenant);
        lemme_table_cles(d);
        let k = s.last().0@;
        assert(!table(d).contains_key(k)) by {
            if table(d).contains_key(k) {
                let i = choose|i: int| 0 <= i < d.len() && d[i].0@ == k;
                assert(s[i].0@ == s[s.len() - 1].0@);
            }
        }
        let f = entrees_recentes(d, maintenant);
        assert forall|x: (String, u64)| f.contains(x) implies s.contains(x) by {
            assert(d.contains(x));
            let i = choose|i: int| 0 <= i < d.len() && d[i] == x;
            assert(s[i] == x);
        }
        if ecoule(maintenant, s.last().1) < AGE_OUBLI_NS {
            let g = f.push(s.last());
            assert(g.drop_last() =~= f);
            assert(table(g) =~= recentes(table(s), maintenant));
            assert(cles_uniques(g)) by {
                assert forall|a: int, b: int| 0 <= a < b < g.len() implies g[a].0@ != g[b].0@ by {
                    if b == g.len() - 1 {
                        assert(g[a] == f[a]);
                        assert(f.contains(f[a]));
                        assert(d.contains(g[a]));
                        let i = choose|i: int| 0 <= i < d.len() && d[i] == g[a];
                        assert(s[i].0@ != s[s.len() - 1].0@);
                    } else {
                        assert(g[a] == f[a] && g[b] == f[b]);
                    }
                }
            }
            assert forall|x: (String, u64)| g.contains(x) implies s.contains(x) by {
                let i = choose|i: int| 0 <= i < g.len() && g[i] == x;
                if i == g.len() - 1 {
                    assert(s[s.len() - 1] == x);
                } else {
                    assert(f[i] == x);
                    assert(f.contains(x));
                }
            }
        } else {
            assert(table(f) =~= recentes(table(s), maintenant));
        }
    } else {
        assert(table(entrees_recentes(s, maintenant)) =~= recentes(table(s), maintenant));
    }
}

impl View for AntiRebond {
    type V = Map<Seq<char>, u64>;

    closed spec fn view(&self) -> Map<Seq<char>, u64> {
        table(self.envois@)
    }
}

impl AntiRebond {
    #[verifier::type_invariant]
    closed spec fn inv(self) -> bool {
        cles_uniques(self.envois@)
    }

    /// Table vide.
    pub fn new() -> (r: AntiRebond)
        ensures
            r@ == Map::<Seq<char>, u64>::empty(),
    {
        AntiRebond { envois: Vec::new() }
    }

    /// Nouvelle notification pour `chemin` à l'instant `maintenant` : rend
    /// vrai s'il faut la transmettre, faux si le même fichier a été signalé
    /// il y a moins de 2 s. Une notification transmise est notée ; au-delà
    /// de 500 entrées, celles de plus de 60 s sont oubliées.
    pub fn doit_signaler(&mut self, chemin: &str, maintenant: u64) -> (r: bool)
        ensures
            r == !signale_recemment(old(self)@, chemin@, maintenant),
            final(self)@ == apres_notification(old(self)@, chemin@, maintenant),
    {
        proof {
            use_type_invariant(&*self);
        }
        let mut envois: Vec<(String, u64)> = Vec::new();
        std::mem::swap(&mut envois, &mut self.envois);
        let ghost ancien = envois@;
        assert(table(ancien) == old(self)@);
        proof {
            lemme_table_cles(ancien);
        }
        let n = envois.len();
        let mut i: usize = 0;
        while i < n && !memes_textes(envois[i].0.as_str(), chemin)
            invariant
                i <= n,
                n == envois@.len(),
                forall|j: int| 0 <= j < i ==> envois@[j].0@ != chemin@,
            decreases n - i,
        {
            i = i + 1;
        }
        if i < n {
            assert(envois@[i as int].0@ == chemin@);
            assert(table(ancien)[ancien[i as int].0@] == ancien[i as int].1);
            let t = envois[i].1;
            if maintenant < t || maintenant - t < DELAI_ANTI_REBOND_NS {
                self.envois = envois;
                return false;
            }
            assert(table(ancien).contains_key(chemin@));
            assert(table(ancien)[chemin@] == t);
            assert(!signale_recemment(table(ancien), chemin@, maintenant));
            let entree = (String::from_str(chemin), maintenant);
            proof {
                lemme_table_mise_a_jour(ancien, i as int, entree);
            }
            envois.set(i, entree);
        } else {
            assert(!table(ancien).contains_key(chemin@));
            envois.push((String::from_str(chemin), maintenant));
            assert(envois@.drop_last() =~= ancien);
            assert(cles_uniques(envois@)) by {
                assert forall|a: int, b: int|
                    0 <= a < b < envois@.len() implies envois@[a].0@ != envois@[b].0@ by {
                    if b == envois@.len() - 1 {
                        assert(envois@[a] == ancien[a]);
                    } else {
                        assert(envois@[a] == ancien[a] && envois@[b] == ancien[b]);
                    }
                }
            }
        }
        proof {
            lemme_table_cles(envois@);
        }
        assert(table(envois@) == table(ancien).insert(chemin@, maintenant));
        assert(!signale_recemment(old(self)@, chemin@, maintenant));
        assert(table(envois@).dom().len() == envois@.len());
        if envois.len() > SEUIL_PURGE {
            let gardees = garder_recentes(&envois, maintenant);
            self.envois = gardees;
        } else {
            self.envois = envois;
        }
        true
    }
}

fn garder_recentes(envois: &Vec<(String, u64)>, maintenant: u64) -> (r: Vec<(String, u64)>)
    requires
        cles_uniques(envois@),
    ensures
        table(r@) == recentes(table(envois@), maintenant),
        cles_uniques(r@),
{
    let ghost s = envois@;
    let mut r: Vec<(String, u64)> = Vec::new();
    let n = envois.len();
    let mut i: usize = 0;
    while i < n
        invariant
            i <= n,
            n == s.len(),
            s == envois@,
            r@ == entrees_recentes(s.subrange(0, i as int), maintenant),
        decreases n - i,
    {
        assert(s.subrange(0, i + 1).drop_last() =~= s.subrange(0, i as int));
        let instant = envois[i].1;
        if maintenant < instant || maintenant - instant < AGE_OUBLI_NS {
            let chemin = envois[i].0.clone();
            r.push((chemin, instant));
            assert(r@.last() == s[i as int]);
        }
        i = i + 1;
    }
    assert(s.subrange(0, n as int) =~= s);
    proof {
        lemme_table_recentes(s, maintenant);
    }
    r
}

/// Un fichier signalé n'est plus signalé pendant les 2 s qui suivent, quoi
/// que devienne le reste de la table.
pub proof fn loi_anti_rebond(m: Map<Seq<char>, u64>, chemin: Seq<char>, t: u64, t2: u64)
    requires
        !signale_recemment(m, chemin, t),
        ecoule(t2, t) < DELAI_ANTI_REBOND_NS,
    ensures
        signale_recemment(apres_notification(m, chemin, t), chemin, t2),
{
}

/// Table après une suite de notifications (chemin, instant), dans l'ordre.
pub open spec fn apres_notifications(m: Map<Seq<char>, u64>, suite: Seq<(Seq<char>, u64)>) -> Map<
    Seq<char>,
    u64,
>
    decreases suite.len(),
{
    if suite.len() == 0 {
        m
    } else {
        let n = suite.last();
        apres_notification(apres_notifications(m, suite.drop_last()), n.0, n.1)
    }
}

/// Sur une suite de notifications, un fichier signalé à l'instant `t` reste
/// noté à `t`, quelles que soient les notifications d'autres fichiers et
/// les purges entre deux, tant qu'aucune n'arrive 60 s ou plus après `t`
/// et qu'aucune du même fichier n'arrive 2 s ou plus après `t` : une
/// nouvelle notification à `t2`, moins de 2 s après `t`, est refusée.
/// Des instants antérieurs à `t` sont admis.
pub proof fn loi_anti_rebond_suite(
    m: Map<Seq<char>, u64>,
    chemin: Seq<char>,
    t: u64,
    suite: Seq<(Seq<char>, u64)>,
    t2: u64,
)
    requires
        !signale_recemment(m, chemin, t),
        forall|i: int|
            0 <= i < suite.len() ==> ecoule(#[trigger] suite[i].1, t) < AGE_OUBLI_NS && (
            suite[i].0 == chemin ==> ecoule(suite[i].1, t) < DELAI_ANTI_REBOND_NS),
        ecoule(t2, t) < DELAI_ANTI_REBOND_NS,
    ensures
        apres_notifications(apres_notification(m, chemin, t), suite).contains_key(chemin),
        apres_notifications(apres_notification(m, chemin, t), suite)[chemin] == t,
        signale_recemment(apres_notifications(apres_notification(m, chemin, t), suite), chemin, t2),
    decreases suite.len(),
{
    if suite.len() > 0 {
        let d = suite.drop_last();
        assert forall|i: int| 0 <= i < d.len() implies ecoule(#[trigger] d[i].1, t) < AGE_OUBLI_NS
            && (d[i].0 == chemin ==> ecoule(d[i].1, t) < DELAI_ANTI_REBOND_NS) by {
            assert(d[i] == suite[i]);
        }
        loi_anti_rebond_suite(m, chemin, t, d, t2);
        let n = suite.last();
        assert(ecoule(n.1, t) < AGE_OUBLI_NS && (n.0 == chemin ==> ecoule(n.1, t)
            < DELAI_ANTI_REBOND_NS)) by {
            assert(suite[suite.len() - 1] == n);
        }
    }
}

// ---------------------------------------------------------------------------
// Fin d'écriture d'un fichier
// ---------------------------------------------------------------------------

/// Nombre de lectures de taille identique qui suivent la première et
/// concluent que le fichier est complet.
pub const LECTURES_REQUISES: u32 = 2;

/// Attente de la fin d'écriture d'un fichier : la taille doit rester la
/// même, non nulle, sur des lectures successives espacées (150 ms).
pub struct AttenteFichier {
    pub taille_precedente: i64,
    pub lectures_stables: u32,
}

/// Effet d'une lecture de la taille (absente si le fichier est illisible) :
/// nouvel état, et vrai si le fichier est tenu pour complet.
pub open spec fn etape_attente(etat: (i64, u32), taille: Option<u64>) -> ((i64, u32), bool) {
    match taille {
        None => ((etat.0, 0), false),
        Some(longueur) => {
            let t = longueur as i64;
            if t == etat.0 && t > 0 {
                let stables = etat.1 + 1;
                ((t, stables as u32), stables >= LECTURES_REQUISES)
            } else {
                ((t, 0), false)
            }
        },
    }
}

impl AttenteFichier {
    pub open spec fn etat(&self) -> (i64, u32) {
        (self.taille_precedente, self.lectures_stables)
    }

    /// Aucune lecture encore.
    pub fn new() -> (r: AttenteFichier)
        ensures
            r.etat() == (-1i64, 0u32),
    {
        AttenteFichier { taille_precedente: -1, lectures_stables: 0 }
    }

    /// Prend en compte une lecture de la taille du fichier.
    pub fn observer(&mut self, taille: Option<u64>) -> (r: bool)
        requires
            old(self).lectures_stables < u32::MAX,
        ensures
            (final(self).etat(), r) == etape_attente(old(self).etat(), taille),
    {
        match taille {
            None => {
                self.lectures_stables = 0;
                false
            },
            Some(longueur) => {
                let t = longueur as i64;
                if t == self.taille_precedente && t > 0 {
                    self.lectures_stables = self.lectures_stables + 1;
                    self.taille_precedente = t;
                    self.lectures_stables >= LECTURES_REQUISES
                } else {
                    self.lectures_stables = 0;
                    self.taille_precedente = t;
                    false
                }
            },
        }
    }

    /// Verdict à l'expiration du délai : le fichier existe et n'est pas vide.
    pub fn verdict_final(taille: Option<u64>) -> (r: bool)
        ensures
            r == (taille matches Some(n) && n > 0),
    {
        match taille {
            Some(n) => n > 0,
            None => false,
        }
    }
}

/// État et verdict après une suite de lectures de la taille, depuis l'état initial.
pub open spec fn attente_apres(lectures: Seq<Option<u64>>) -> ((i64, u32), bool)
    decreases lectures.len(),
{
    if lectures.len() == 0 {
        ((-1i64, 0u32), false)
    } else {
        etape_attente(attente_apres(lectures.drop_last()).0, lectures.last())
    }
}

/// Une lecture réussie d'indice inférieur à `borne` a donné la taille `t`.
pub open spec fn taille_lue_avant(lectures: Seq<Option<u64>>, borne: int, t: i64) -> bool {
    exists|j: int| 0 <= j < borne && (#[trigger] lectures[j] matches Some(x) && x as i64 == t)
}

proof fn lemme_attente_suite(lectures: Seq<Option<u64>>)
    requires
        lectures.len() < u32::MAX,
    ensures
        ({
            let e = attente_apres(lectures).0;
            &&& e.1 <= lectures.len()
            &&& (e.0 == -1 || taille_lue_avant(lectures, lectures.len() as int, e.0))
            &&& e.1 >= 1 ==> {
                &&& e.0 > 0
                &&& (lectures.last() matches Some(x) && x as i64 == e.0)
                &&& taille_lue_avant(lectures, lectures.len() - 1, e.0)
            }
        }),
    decreases lectures.len(),
{
    if lectures.len() > 0 {
        let d = lectures.drop_last();
        lemme_attente_suite(d);
        let p = attente_apres(d).0;
        let n = lectures.len() as int;
        if p.0 != -1 {
            let j = choose|j: int|
                0 <= j < n - 1 && (#[trigger] d[j] matches Some(x) && x as i64 == p.0);
            assert(lectures[j] == d[j]);
        }
        match lectures.last() {
            Some(l) => {
                assert(lectures[n - 1] matches Some(x) && (x as i64 == l as i64));
            },
            None => {},
        }
        if p.1 >= 1 {
            let j = choose|j: int|
                0 <= j < n - 2 && (#[trigger] d[j] matches Some(x) && x as i64 == p.0);
            assert(lectures[j] == d[j]);
        }
    }
}

/// Une suite de lectures ne conclut à un fichier complet que sur deux
/// lectures successives réussies de même taille non nulle, précédées d'une
/// lecture antérieure de cette même taille.
pub proof fn loi_complet_sur_lectures_egales(lectures: Seq<Option<u64>>)
    requires
        lectures.len() < u32::MAX,
        attente_apres(lectures).1,
    ensures
        lectures.len() >= 2,
        lectures.last() matches Some(n) && (n as i64) > 0,
        lectures[lectures.len() - 2] == lectures.last(),
        lectures.last() matches Some(n) && taille_lue_avant(lectures, lectures.len() - 2, n as i64),
{
    let d = lectures.drop_last();
    lemme_attente_suite(d);
    let p = attente_apres(d).0;
    let n = lectures.len() as int;
    assert(n >= 1);
    assert(p.1 >= 1);
    assert(d.len() >= 1);
    assert(lectures[n - 2] == d.last());
    match (d.last(), lectures.last()) {
        (Some(x), Some(y)) => {
            assert(x as i64 == y as i64 ==> x == y) by (bit_vector);
        },
        _ => {},
    }
    let j = choose|j: int| 0 <= j < n - 2 && (#[trigger] d[j] matches Some(x) && x as i64 == p.0);
    assert(lectures[j] == d[j]);
}

/// Les deux premières lectures ne suffisent jamais à conclure.
pub proof fn loi_attente_minimale(a: Option<u64>, b: Option<u64>)
    ensures
        !etape_attente((-1i64, 0u32), a).1,
        !etape_attente(etape_attente((-1i64, 0u32), a).0, b).1,
{
}

/// Trois lectures successives d'une même taille non nulle concluent au
/// plus tard à la troisième, quel que soit l'état de départ.
pub proof fn loi_stabilite_detectee(etat: (i64, u32), n: u64)
    requires
        (n as i64) > 0,
        etat.1 < u32::MAX,
    ensures
        ({
            let e1 = etape_attente(etat, Some(n));
            let e2 = etape_attente(e1.0, Some(n));
            let e3 = etape_attente(e2.0, Some(n));
            e2.1 || e3.1
        }),
{
}

} // verus!
