//! Opérations de texte sur lesquelles reposent l'analyse des adresses PCCC,
//! de la configuration et des chemins : rognage des blancs, découpage,
//! lecture d'entiers décimaux, comparaisons.

use vstd::prelude::*;

verus! {

// ---------------------------------------------------------------------------
// Blancs Unicode et rognage
// ---------------------------------------------------------------------------

/// Caractère blanc au sens de la propriété Unicode White_Space
/// (celle qu'emploient `char::is_whitespace` et `str::trim`).
pub open spec fn est_blanc(c: char) -> bool {
    let x = c as u32;
    ||| 0x09 <= x <= 0x0D
    ||| x == 0x20
    ||| x == 0x85
    ||| x == 0xA0
    ||| x == 0x1680
    ||| 0x2000 <= x <= 0x200A
    ||| x == 0x2028
    ||| x == 0x2029
    ||| x == 0x202F
    ||| x == 0x205F
    ||| x == 0x3000
}

/// Le texte privé de ses blancs de tête.
pub open spec fn sans_blancs_debut(s: Seq<char>) -> Seq<char>
    decreases s.len(),
{
    if s.len() > 0 && est_blanc(s[0]) {
        sans_blancs_debut(s.drop_first())
    } else {
        s
    }
}

/// Le texte privé de ses blancs de queue.
pub open spec fn sans_blancs_fin(s: Seq<char>) -> Seq<char>
    decreases s.len(),
{
    if s.len() > 0 && est_blanc(s.last()) {
        sans_blancs_fin(s.drop_last())
    } else {
        s
    }
}

/// Le texte privé de ses blancs aux deux bouts (ce que rend `str::trim`).
pub open spec fn rognage(s: Seq<char>) -> Seq<char> {
    sans_blancs_fin(sans_blancs_debut(s))
}

pub fn est_blanc_exec(c: char) -> (r: bool)
    ensures
        r == est_blanc(c),
{
    let x = c as u32;
    (0x09 <= x && x <= 0x0D) || x == 0x20 || x == 0x85 || x == 0xA0 || x == 0x1680 || (0x2000
        <= x && x <= 0x200A) || x == 0x2028 || x == 0x2029 || x == 0x202F || x == 0x205F || x
        == 0x3000
}

/// Retire les blancs Unicode de tête et de queue.
pub fn rogner(s: &str) -> (r: &str)
    ensures
        r@ == rognage(s@),
{
    let n = s.unicode_len();
    let mut debut: usize = 0;
    assert(s@.subrange(0, n as int) =~= s@);
    while debut < n && est_blanc_exec(s.get_char(debut))
        invariant
            debut <= n,
            n == s@.len(),
            sans_blancs_debut(s@) == sans_blancs_debut(s@.subrange(debut as int, n as int)),
        decreases n - debut,
    {
        assert(s@.subrange(debut as int, n as int).drop_first() =~= s@.subrange(
            debut + 1,
            n as int,
        ));
        debut = debut + 1;
    }
    assert(sans_blancs_debut(s@) == s@.subrange(debut as int, n as int));
    let mut fin: usize = n;
    while fin > debut && est_blanc_exec(s.get_char(fin - 1))
        invariant
            debut <= fin <= n,
            n == s@.len(),
            sans_blancs_fin(s@.subrange(debut as int, n as int)) == sans_blancs_fin(
                s@.subrange(debut as int, fin as int),
            ),
        decreases fin,
    {
        assert(s@.subrange(debut as int, fin as int).drop_last() =~= s@.subrange(
            debut as int,
            fin - 1,
        ));
        fin = fin - 1;
    }
    s.substring_char(debut, fin)
}

// ---------------------------------------------------------------------------
// Retrait d'un caractère répété en bout de texte
// ---------------------------------------------------------------------------

/// Le texte privé de toutes les occurrences de `c` en tête.
pub open spec fn sans_car_debut(s: Seq<char>, c: char) -> Seq<char>
    decreases s.len(),
{
    if s.len() > 0 && s[0] == c {
        sans_car_debut(s.drop_first(), c)
    } else {
        s
    }
}

/// Le texte privé de toutes les occurrences de `c` en queue
/// (ce que rend `str::trim_end_matches(c)`).
pub open spec fn sans_car_fin(s: Seq<char>, c: char) -> Seq<char>
    decreases s.len(),
{
    if s.len() > 0 && s.last() == c {
        sans_car_fin(s.drop_last(), c)
    } else {
        s
    }
}

/// Retire `c` en queue, autant de fois qu'il y figure.
pub fn retirer_fin(s: &str, c: char) -> (r: &str)
    ensures
        r@ == sans_car_fin(s@, c),
{
    let n = s.unicode_len();
    let mut fin: usize = n;
    assert(s@.subrange(0, n as int) =~= s@);
    while fin > 0 && s.get_char(fin - 1) == c
        invariant
            fin <= n,
            n == s@.len(),
            sans_car_fin(s@, c) == sans_car_fin(s@.subrange(0, fin as int), c),
        decreases fin,
    {
        assert(s@.subrange(0, fin as int).drop_last() =~= s@.subrange(0, fin - 1));
        fin = fin - 1;
    }
    s.substring_char(0, fin)
}

/// Retire `c` aux deux bouts, autant de fois qu'il y figure
/// (ce que rend `str::trim_matches(c)`).
pub fn retirer_bords(s: &str, c: char) -> (r: &str)
    ensures
        r@ == sans_car_fin(sans_car_debut(s@, c), c),
{
    let n = s.unicode_len();
    let mut debut: usize = 0;
    assert(s@.subrange(0, n as int) =~= s@);
    while debut < n && s.get_char(debut) == c
        invariant
            debut <= n,
            n == s@.len(),
            sans_car_debut(s@, c) == sans_car_debut(s@.subrange(debut as int, n as int), c),
        decreases n - debut,
    {
        assert(s@.subrange(debut as int, n as int).drop_first() =~= s@.subrange(
            debut + 1,
            n as int,
        ));
        debut = debut + 1;
    }
    let milieu = s.substring_char(debut, n);
    retirer_fin(milieu, c)
}

// ---------------------------------------------------------------------------
// Découpage selon un séparateur
// ---------------------------------------------------------------------------

/// Les morceaux de `s` entre les occurrences de `sep`, comme `str::split(sep)` :
/// un texte sans séparateur donne un seul morceau, le texte vide aussi.
pub open spec fn decoupage(s: Seq<char>, sep: char) -> Seq<Seq<char>>
    decreases s.len(),
{
    if s.len() == 0 {
        seq![Seq::empty()]
    } else {
        let avant = decoupage(s.drop_last(), sep);
        if s.last() == sep {
            avant.push(Seq::empty())
        } else {
            avant.update(avant.len() - 1, avant.last().push(s.last()))
        }
    }
}

/// Vue d'une suite de `String`.
pub open spec fn vues(v: Seq<String>) -> Seq<Seq<char>> {
    v.map_values(|m: String| m@)
}

pub proof fn lemme_decoupage_non_vide(s: Seq<char>, sep: char)
    ensures
        decoupage(s, sep).len() >= 1,
    decreases s.len(),
{
    if s.len() > 0 {
        lemme_decoupage_non_vide(s.drop_last(), sep);
    }
}

/// Un texte sans séparateur forme un seul morceau.
pub proof fn lemme_decoupage_sans_separateur(s: Seq<char>, sep: char)
    requires
        !s.contains(sep),
    ensures
        decoupage(s, sep) == seq![s],
    decreases s.len(),
{
    if s.len() > 0 {
        let d = s.drop_last();
        assert(!d.contains(sep)) by {
            if d.contains(sep) {
                let i = choose|i: int| 0 <= i < d.len() && d[i] == sep;
                assert(s[i] == sep);
            }
        }
        lemme_decoupage_sans_separateur(d, sep);
        assert(s.last() != sep) by {
            assert(s[s.len() - 1] == s.last());
        }
        assert(d.push(s.last()) =~= s);
        assert(decoupage(s, sep) =~= seq![s]);
    } else {
        assert(s =~= Seq::<char>::empty());
    }
}

/// Découper `x`, un séparateur, puis `y`, c'est découper `x` puis `y`.
pub proof fn lemme_decoupage_concat(x: Seq<char>, y: Seq<char>, sep: char)
    ensures
        decoupage(x + seq![sep] + y, sep) == decoupage(x, sep) + decoupage(y, sep),
    decreases y.len(),
{
    let z = x + seq![sep] + y;
    if y.len() == 0 {
        assert(z.drop_last() =~= x);
        assert(decoupage(y, sep) =~= seq![Seq::<char>::empty()]);
        assert(decoupage(z, sep) =~= decoupage(x, sep) + decoupage(y, sep));
    } else {
        let yd = y.drop_last();
        lemme_decoupage_concat(x, yd, sep);
        lemme_decoupage_non_vide(yd, sep);
        lemme_decoupage_non_vide(x, sep);
        assert(z.drop_last() =~= x + seq![sep] + yd);
        assert(z.last() == y.last());
        let dx = decoupage(x, sep);
        let dy = decoupage(yd, sep);
        if y.last() == sep {
            assert(decoupage(z, sep) =~= dx + dy.push(Seq::<char>::empty()));
        } else {
            assert((dx + dy).update((dx + dy).len() - 1, (dx + dy).last().push(y.last())) =~= dx
                + dy.update(dy.len() - 1, dy.last().push(y.last())));
        }
    }
}

/// Découpe `s` aux occurrences de `sep`.
pub fn decouper(s: &str, sep: char) -> (r: Vec<String>)
    ensures
        vues(r@) == decoupage(s@, sep),
{
    let n = s.unicode_len();
    let mut morceaux: Vec<String> = Vec::new();
    let mut debut: usize = 0;
    let mut i: usize = 0;
    assert(s@.subrange(0, 0) =~= Seq::<char>::empty());
    assert(vues(morceaux@) =~= Seq::<Seq<char>>::empty());
    assert(vues(morceaux@).push(s@.subrange(0, 0)) =~= seq![Seq::<char>::empty()]);
    while i < n
        invariant
            debut <= i <= n,
            n == s@.len(),
            decoupage(s@.subrange(0, i as int), sep) == vues(morceaux@).push(
                s@.subrange(debut as int, i as int),
            ),
        decreases n - i,
    {
        let c = s.get_char(i);
        proof {
            assert(s@.subrange(0, i + 1).drop_last() =~= s@.subrange(0, i as int));
            lemme_decoupage_non_vide(s@.subrange(0, i as int), sep);
        }
        if c == sep {
            let morceau = String::from_str(s.substring_char(debut, i));
            let ghost avant = vues(morceaux@);
            morceaux.push(morceau);
            assert(vues(morceaux@) =~= avant.push(morceau@));
            debut = i + 1;
            assert(s@.subrange(debut as int, i + 1) =~= Seq::<char>::empty());
        } else {
            assert(s@.subrange(debut as int, i + 1) =~= s@.subrange(debut as int, i as int).push(
                c,
            ));
        }
        i = i + 1;
    }
    let dernier = String::from_str(s.substring_char(debut, n));
    let ghost avant = vues(morceaux@);
    morceaux.push(dernier);
    assert(vues(morceaux@) =~= avant.push(dernier@));
    assert(s@.subrange(0, n as int) =~= s@);
    morceaux
}

// ---------------------------------------------------------------------------
// Entiers décimaux non signés
// ---------------------------------------------------------------------------

pub open spec fn est_chiffre(c: char) -> bool {
    '0' <= c && c <= '9'
}

pub open spec fn tous_chiffres(s: Seq<char>) -> bool {
    forall|i: int| 0 <= i < s.len() ==> est_chiffre(#[trigger] s[i])
}

/// Valeur d'une suite de chiffres décimaux, le plus fort en tête.
pub open spec fn valeur_decimale(s: Seq<char>) -> nat
    decreases s.len(),
{
    if s.len() == 0 {
        0
    } else {
        valeur_decimale(s.drop_last()) * 10 + ((s.last() as int) - ('0' as int)) as nat
    }
}

/// Les chiffres d'un entier non signé écrit avec un `+` facultatif en tête.
pub open spec fn partie_chiffres(s: Seq<char>) -> Seq<char> {
    if s.len() > 0 && s[0] == '+' {
        s.drop_first()
    } else {
        s
    }
}

/// Ce que rend `str::parse` pour un entier non signé dont la plus grande
/// valeur est `max` : un `+` facultatif puis au moins un chiffre décimal,
/// rien d'autre, et une valeur au plus égale à `max`.
pub open spec fn entier_decimal(s: Seq<char>, max: nat) -> Option<nat> {
    let d = partie_chiffres(s);
    if d.len() > 0 && tous_chiffres(d) && valeur_decimale(d) <= max {
        Some(valeur_decimale(d))
    } else {
        None
    }
}

/// La valeur d'une suite de chiffres majore celle de chacun de ses préfixes.
pub proof fn lemme_valeur_prefixe(s: Seq<char>, k: int)
    requires
        0 <= k <= s.len(),
        tous_chiffres(s),
    ensures
        valeur_decimale(s.subrange(0, k)) <= valeur_decimale(s),
    decreases s.len(),
{
    if k < s.len() {
        let d = s.drop_last();
        assert(tous_chiffres(d)) by {
            assert forall|i: int| 0 <= i < d.len() implies est_chiffre(#[trigger] d[i]) by {
                assert(d[i] == s[i]);
            }
        }
        assert(d.subrange(0, k) =~= s.subrange(0, k));
        lemme_valeur_prefixe(d, k);
    } else {
        assert(s.subrange(0, k) =~= s);
    }
}

/// Lit un entier non signé au plus égal à `max`, comme `str::parse`.
pub fn analyser_entier(s: &str, max: u64) -> (r: Option<u64>)
    ensures
        match r {
            Some(v) => entier_decimal(s@, max as nat) == Some(v as nat),
            None => entier_decimal(s@, max as nat) is None,
        },
{
    let n = s.unicode_len();
    let mut debut: usize = 0;
    if n > 0 && s.get_char(0) == '+' {
        debut = 1;
    }
    let ghost d = partie_chiffres(s@);
    assert(d =~= s@.subrange(debut as int, n as int));
    if debut == n {
        return None;
    }
    let mut v: u64 = 0;
    let mut i: usize = debut;
    while i < n
        invariant
            debut <= i <= n,
            n == s@.len(),
            d == s@.subrange(debut as int, n as int),
            d == partie_chiffres(s@),
            tous_chiffres(d.subrange(0, i - debut)),
            v as nat == valeur_decimale(d.subrange(0, i - debut)),
            v <= max,
        decreases n - i,
    {
        let c = s.get_char(i);
        let ghost k = i - debut;
        assert(d[k] == c);
        if !('0' <= c && c <= '9') {
            assert(!est_chiffre(d[k]));
            assert(!tous_chiffres(d));
            return None;
        }
        let chiffre = (c as u32 - 48) as u64;
        assert(d.subrange(0, k + 1).drop_last() =~= d.subrange(0, k));
        assert(d.subrange(0, k + 1).last() == c);
        assert(tous_chiffres(d.subrange(0, k + 1))) by {
            assert forall|j: int| 0 <= j < k + 1 implies est_chiffre(
                #[trigger] d.subrange(0, k + 1)[j],
            ) by {
                if j < k {
                    assert(d.subrange(0, k + 1)[j] == d.subrange(0, k)[j]);
                }
            }
        }
        if chiffre > max || v > (max - chiffre) / 10 {
            proof {
                assert(v * 10 + chiffre > max) by (nonlinear_arith)
                    requires
                        chiffre > max || v > (max - chiffre) / 10,
                ;
                assert(valeur_decimale(d.subrange(0, k + 1)) == v * 10 + chiffre);
                if tous_chiffres(d) {
                    lemme_valeur_prefixe(d, k + 1);
                }
            }
            return None;
        }
        v = v * 10 + chiffre;
        i = i + 1;
    }
    assert(d.subrange(0, n - debut) =~= d);
    Some(v)
}

// ---------------------------------------------------------------------------
// Écriture décimale
// ---------------------------------------------------------------------------

/// Le chiffre décimal de valeur `d` (< 10).
pub open spec fn chiffre(d: nat) -> char {
    ((48 + d) as u32) as char
}

/// Écriture décimale de `n`, sans zéro de tête (ce qu'écrit `format!("{}", n)`).
pub open spec fn ecriture_decimale(n: nat) -> Seq<char>
    decreases n,
{
    if n < 10 {
        seq![chiffre(n)]
    } else {
        ecriture_decimale(n / 10).push(chiffre(n % 10))
    }
}

fn chiffre_exec(d: u64) -> (r: &'static str)
    requires
        d < 10,
    ensures
        r@ == seq![chiffre(d as nat)],
{
    proof {
        reveal_strlit("0");
        reveal_strlit("1");
        reveal_strlit("2");
        reveal_strlit("3");
        reveal_strlit("4");
        reveal_strlit("5");
        reveal_strlit("6");
        reveal_strlit("7");
        reveal_strlit("8");
        reveal_strlit("9");
    }
    if d == 0 {
        "0"
    } else if d == 1 {
        "1"
    } else if d == 2 {
        "2"
    } else if d == 3 {
        "3"
    } else if d == 4 {
        "4"
    } else if d == 5 {
        "5"
    } else if d == 6 {
        "6"
    } else if d == 7 {
        "7"
    } else if d == 8 {
        "8"
    } else {
        "9"
    }
}

/// Écrit `n` en décimal.
pub fn ecrire_decimal(n: u64) -> (r: String)
    ensures
        r@ == ecriture_decimale(n as nat),
    decreases n,
{
    if n < 10 {
        String::from_str(chiffre_exec(n))
    } else {
        let tete = ecrire_decimal(n / 10);
        let r = tete.concat(chiffre_exec(n % 10));
        assert(r@ =~= ecriture_decimale(n as nat));
        r
    }
}

/// Relire l'écriture décimale d'un entier redonne cet entier.
pub proof fn loi_decimal_relu(n: nat, max: nat)
    requires
        n <= max,
    ensures
        entier_decimal(ecriture_decimale(n), max) == Some(n),
{
    lemme_ecriture_decimale(n);
    let e = ecriture_decimale(n);
    assert(partie_chiffres(e) == e);
}

pub proof fn lemme_ecriture_decimale(n: nat)
    ensures
        ecriture_decimale(n).len() > 0,
        tous_chiffres(ecriture_decimale(n)),
        valeur_decimale(ecriture_decimale(n)) == n,
        ecriture_decimale(n)[0] != '+',
    decreases n,
{
    let e = ecriture_decimale(n);
    if n < 10 {
        assert(e.drop_last() =~= Seq::<char>::empty());
        assert(e[0] == chiffre(n));
        assert(chiffre(n) as int == 48 + n);
        assert('0' as int == 48);
        assert(valeur_decimale(e) == valeur_decimale(e.drop_last()) * 10 + ((e.last() as int) - ('0' as int)) as nat);
    } else {
        lemme_ecriture_decimale(n / 10);
        let t = ecriture_decimale(n / 10);
        assert(e.drop_last() =~= t);
        assert(e.last() == chiffre(n % 10));
        assert(chiffre(n % 10) as int == 48 + n % 10);
        assert(n == (n / 10) * 10 + n % 10);
        assert('0' as int == 48);
        assert(valeur_decimale(e) == valeur_decimale(e.drop_last()) * 10 + ((e.last() as int) - ('0' as int)) as nat);
        assert(tous_chiffres(e)) by {
            assert forall|i: int| 0 <= i < e.len() implies est_chiffre(#[trigger] e[i]) by {
                if i < t.len() {
                    assert(e[i] == t[i]);
                }
            }
        }
        assert(e[0] == t[0]);
    }
}

// ---------------------------------------------------------------------------
// Comparaisons
// ---------------------------------------------------------------------------

/// Égalité exacte de deux textes.
pub fn memes_textes(a: &str, b: &str) -> (r: bool)
    ensures
        r == (a@ == b@),
{
    let n = a.unicode_len();
    let m = b.unicode_len();
    if n != m {
        return false;
    }
    let mut i: usize = 0;
    while i < n
        invariant
            i <= n,
            n == a@.len(),
            m == b@.len(),
            n == m,
            forall|j: int| 0 <= j < i ==> a@[j] == b@[j],
        decreases n - i,
    {
        if a.get_char(i) != b.get_char(i) {
            return false;
        }
        i = i + 1;
    }
    assert(a@ =~= b@);
    true
}

/// Code du caractère après passage des majuscules ASCII en minuscules.
pub open spec fn code_minuscule_ascii(c: char) -> u32 {
    let x = c as u32;
    if 65 <= x <= 90 {
        (x + 32) as u32
    } else {
        x
    }
}

/// Égalité aux majuscules ASCII près (ce que teste `str::eq_ignore_ascii_case`).
pub open spec fn egaux_sans_casse_ascii(a: Seq<char>, b: Seq<char>) -> bool {
    &&& a.len() == b.len()
    &&& forall|i: int|
        0 <= i < a.len() ==> #[trigger] code_minuscule_ascii(a[i]) == code_minuscule_ascii(b[i])
}

fn code_minuscule_ascii_exec(c: char) -> (r: u32)
    ensures
        r == code_minuscule_ascii(c),
{
    let x = c as u32;
    if 65 <= x && x <= 90 {
        x + 32
    } else {
        x
    }
}

/// Compare deux textes aux majuscules ASCII près.
pub fn egal_sans_casse_ascii(a: &str, b: &str) -> (r: bool)
    ensures
        r == egaux_sans_casse_ascii(a@, b@),
{
    let n = a.unicode_len();
    let m = b.unicode_len();
    if n != m {
        return false;
    }
    let mut i: usize = 0;
    while i < n
        invariant
            i <= n,
            n == a@.len(),
            m == b@.len(),
            n == m,
            forall|j: int|
                0 <= j < i ==> #[trigger] code_minuscule_ascii(a@[j]) == code_minuscule_ascii(
                    b@[j],
                ),
        decreases n - i,
    {
        if code_minuscule_ascii_exec(a.get_char(i)) != code_minuscule_ascii_exec(b.get_char(i)) {
            return false;
        }
        i = i + 1;
    }
    true
}

// ---------------------------------------------------------------------------
// Minuscules Unicode
// ---------------------------------------------------------------------------

/// Ce que rend `str::to_lowercase` pour un texte : son équivalent en
/// minuscules selon les tables Unicode de la bibliothèque standard.
pub uninterp spec fn minuscules(s: Seq<char>) -> Seq<char>;

/// Appelle `str::to_lowercase` ; le contrat dit seulement que le résultat est
/// la fonction `minuscules` du texte donné, sans en décrire les tables.
#[verifier::external_body]
pub(crate) fn en_minuscules(s: &str) -> (r: String)
    ensures
        r@ == minuscules(s@),
{
    s.to_lowercase()
}

} // verus!
