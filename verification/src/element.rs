//! The element directory: a fixed table of 118 (name, symbol) pairs, and
//! lookups by atomic number, by name and by symbol. Name and symbol
//! comparisons are insensitive to ASCII case and to the five accented
//! lowercase vowels, via `sanitize`.

use vstd::prelude::*;
use vstd::string::*;

verus! {

/// What a normalized character is: ASCII uppercase letters are lowered,
/// the five accented lowercase vowels lose their accent, and every other
/// character is kept as it is.
pub open spec fn norm_char(c: char) -> char {
    if 'A' <= c && c <= 'Z' {
        ((c as int) + 32) as char
    } else if c == 'á' {
        'a'
    } else if c == 'é' {
        'e'
    } else if c == 'í' {
        'i'
    } else if c == 'ó' {
        'o'
    } else if c == 'ú' {
        'u'
    } else {
        c
    }
}

/// Normalization of a whole string: `norm_char` applied to every character.
pub open spec fn spec_normalize(s: Seq<char>) -> Seq<char> {
    s.map_values(|c: char| norm_char(c))
}

/// Relies on `String::push`: appends exactly one character at the end.
#[verifier::external_body]
fn push_char(s: &mut String, c: char)
    ensures
        final(s)@ == old(s)@.push(c),
{
    s.push(c);
}

fn norm_char_exec(c: char) -> (r: char)
    ensures
        r == norm_char(c),
{
    if 'A' <= c && c <= 'Z' {
        (((c as u8) + 32) as char)
    } else if c == 'á' {
        'a'
    } else if c == 'é' {
        'e'
    } else if c == 'í' {
        'i'
    } else if c == 'ó' {
        'o'
    } else if c == 'ú' {
        'u'
    } else {
        c
    }
}

/// Folds a string for comparison: ASCII lowercasing plus removal of the
/// accents on a, e, i, o, u.
pub fn sanitize(text: &str) -> (r: String)
    ensures
        r@ == spec_normalize(text@),
{
    let n = text.unicode_len();
    let mut out = String::new();
    let mut i: usize = 0;
    while i < n
        invariant
            n == text@.len(),
            i <= n,
            out@ == spec_normalize(text@.take(i as int)),
        decreases n - i,
    {
        let c = text.get_char(i);
        push_char(&mut out, norm_char_exec(c));
        proof {
            assert(text@.take(i + 1) =~= text@.take(i as int).push(text@[i as int]));
            assert(spec_normalize(text@.take(i + 1)) =~= spec_normalize(text@.take(i as int)).push(
                norm_char(text@[i as int])));
        }
        i = i + 1;
    }
    proof {
        assert(text@.take(n as int) =~= text@);
    }
    out
}

/// Law: normalization is idempotent. Normalizing an already normalized
/// string changes nothing.
pub proof fn lemma_normalize_idempotent(s: Seq<char>)
    ensures
        spec_normalize(spec_normalize(s)) == spec_normalize(s),
{
    assert forall|c: char| #[trigger] norm_char(norm_char(c)) == norm_char(c) by {
    }
    assert(spec_normalize(spec_normalize(s)) =~= spec_normalize(s));
}


/// The error of a failed lookup: the selector that matched nothing.
#[derive(Debug)]
pub enum CreationError {
    AtomicNumberNotFound(u8),
    NameNotFound(String),
    SymbolNotFound(String),
}

/// The mathematical content of a resolved element: its 1-based position in
/// the directory and the directory's name and symbol for it.
pub ghost struct ElementView {
    pub atomic_number: int,
    pub name: Seq<char>,
    pub symbol: Seq<char>,
}

/// An element resolved from the directory.
pub struct ChemicalElement {
    atomic_number: u8,
    name: String,
    symbol: String,
}

impl View for ChemicalElement {
    type V = ElementView;

    closed spec fn view(&self) -> ElementView {
        ElementView {
            atomic_number: self.atomic_number as int,
            name: self.name@,
            symbol: self.symbol@,
        }
    }
}

/// The directory: 118 (name, symbol) pairs; the element at position `i`
/// has atomic number `i + 1`.
pub open spec fn spec_table() -> Seq<(&'static str, &'static str)> {
    Seq::empty()
        .push(("Hidrógeno", "H"))
        .push(("Helio", "He"))
        .push(("Litio", "Li"))
        .push(("Berilio", "Be"))
        .push(("Boro", "B"))
        .push(("Carbono", "C"))
        .push(("Nitrógeno", "N"))
        .push(("Oxígeno", "O"))
        .push(("Flúor", "F"))
        .push(("Neón", "Ne"))
        .push(("Sodio", "Na"))
        .push(("Magnesio", "Mg"))
        .push(("Aluminio", "Al"))
        .push(("Silicio", "Si"))
        .push(("Fósforo", "P"))
        .push(("Azufre", "S"))
        .push(("Cloro", "Cl"))
        .push(("Argón", "Ar"))
        .push(("Potasio", "K"))
        .push(("Calcio", "Ca"))
        .push(("Escandio", "Sc"))
        .push(("Titanio", "Ti"))
        .push(("Vanadio", "V"))
        .push(("Cromo", "Cr"))
        .push(("Manganeso", "Mn"))
        .push(("Hierro", "Fe"))
        .push(("Cobalto", "Co"))
        .push(("Niquel", "Ni"))
        .push(("Cobre", "Cu"))
        .push(("Zinc", "Zn"))
        .push(("Galio", "Ga"))
        .push(("Germanio", "Ge"))
        .push(("Arsénico", "As"))
        .push(("Selenio", "Se"))
        .push(("Bromo", "Br"))
        .push(("Criptón", "Kr"))
        .push(("Rubidio", "Rb"))
        .push(("Estroncio", "Sr"))
        .push(("Itrio", "Y"))
        .push(("Zirconio", "Zr"))
        .push(("Niobio", "Nb"))
        .push(("Molibdeno", "Mo"))
        .push(("Tecnecio", "Tc"))
        .push(("Rutenio", "Ru"))
        .push(("Rodio", "Rh"))
        .push(("Paladio", "Pd"))
        .push(("Plata", "Ag"))
        .push(("Cadmio", "Cd"))
        .push(("Indio", "In"))
        .push(("Estaño", "Sn"))
        .push(("Antimonio", "Sb"))
        .push(("Telurio", "Te"))
        .push(("Yodo", "I"))
        .push(("Xenón", "Xe"))
        .push(("Cesio", "Cs"))
        .push(("Bario", "Ba"))
        .push(("Lantano", "La"))
        .push(("Cerio", "Ce"))
        .push(("Praseodimio", "Pr"))
        .push(("Neodimio", "Nd"))
        .push(("Prometio", "Pm"))
        .push(("Samario", "Sm"))
        .push(("Europio", "Eu"))
        .push(("Gadolino", "Gd"))
        .push(("Terbio", "Tb"))
        .push(("Disprosio", "Dy"))
        .push(("Holmio", "Ho"))
        .push(("Erbio", "Er"))
        .push(("Tulio", "Tm"))
        .push(("Iterbio", "Yb"))
        .push(("Lutecio", "Lu"))
        .push(("Hafnio", "Hf"))
        .push(("Tantalio", "Ta"))
        .push(("Tungsteno", "W"))
        .push(("Renio", "Re"))
        .push(("Osmio", "Os"))
        .push(("Iridio", "Ir"))
        .push(("Platino", "Pt"))
        .push(("Oro", "Au"))
        .push(("Mercurio", "Hg"))
        .push(("Talio", "Tl"))
        .push(("Plomo", "Pb"))
        .push(("Bismuto", "Bi"))
        .push(("Polonio", "Po"))
        .push(("Astato", "At"))
        .push(("Radón", "Rn"))
        .push(("Francio", "Fr"))
        .push(("Radio", "Ra"))
        .push(("Actinio", "Ac"))
        .push(("Torio", "Th"))
        .push(("Protactinio", "Pa"))
        .push(("Uranio", "U"))
        .push(("Neptunio", "Np"))
        .push(("Plutonio", "Pu"))
        .push(("Americio", "Am"))
        .push(("Curio", "Cm"))
        .push(("Berquelio", "Bk"))
        .push(("Californio", "Cf"))
        .push(("Einstenio", "Es"))
        .push(("Fermio", "Fm"))
        .push(("Mendelevio", "Md"))
        .push(("Nobelio", "No"))
        .push(("Laurencio", "Lr"))
        .push(("Rutherfordio", "Rf"))
        .push(("Dubnio", "Db"))
        .push(("Seaborgio", "Sg"))
        .push(("Bohrio", "Bh"))
        .push(("Hassio", "Hs"))
        .push(("Meitnerio", "Mt"))
        .push(("Darmstadtio", "Ds"))
        .push(("Roentgenio", "Rg"))
        .push(("Copernicio", "Cn"))
        .push(("Nihonio", "Nh"))
        .push(("Flerovio", "Fl"))
        .push(("Moscovio", "Mc"))
        .push(("Livermorio", "Lv"))
        .push(("Teneso", "Ts"))
        .push(("Oganesón", "Og"))
}

/// Element `j + 1`'s stored name normalizes like the query does.
pub open spec fn name_matches_at(query: Seq<char>, j: int) -> bool {
    spec_normalize(spec_table()[j].0@) == spec_normalize(query)
}

/// Element `j + 1`'s stored symbol normalizes like the query does.
pub open spec fn symbol_matches_at(query: Seq<char>, j: int) -> bool {
    spec_normalize(spec_table()[j].1@) == spec_normalize(query)
}

/// No two table entries share a normalized name.
pub open spec fn names_distinct(t: Seq<(&'static str, &'static str)>) -> bool {
    forall|i: int, j: int|
        0 <= i < j < t.len() ==> spec_normalize(t[i].0@) != spec_normalize(t[j].0@)
}

/// No two table entries share a normalized symbol.
pub open spec fn symbols_distinct(t: Seq<(&'static str, &'static str)>) -> bool {
    forall|i: int, j: int|
        0 <= i < j < t.len() ==> spec_normalize(t[i].1@) != spec_normalize(t[j].1@)
}

#[verifier::rlimit(100)]
pub proof fn lemma_table_len()
    ensures
        spec_table().len() == 118,
{
    let s0 = Seq::<(&'static str, &'static str)>::empty();
    let s1 = s0.push(("Hidrógeno", "H"));
    let s2 = s1.push(("Helio", "He"));
    let s3 = s2.push(("Litio", "Li"));
    let s4 = s3.push(("Berilio", "Be"));
    let s5 = s4.push(("Boro", "B"));
    let s6 = s5.push(("Carbono", "C"));
    let s7 = s6.push(("Nitrógeno", "N"));
    let s8 = s7.push(("Oxígeno", "O"));
    let s9 = s8.push(("Flúor", "F"));
    let s10 = s9.push(("Neón", "Ne"));
    let s11 = s10.push(("Sodio", "Na"));
    let s12 = s11.push(("Magnesio", "Mg"));
    let s13 = s12.push(("Aluminio", "Al"));
    let s14 = s13.push(("Silicio", "Si"));
    let s15 = s14.push(("Fósforo", "P"));
    let s16 = s15.push(("Azufre", "S"));
    let s17 = s16.push(("Cloro", "Cl"));
    let s18 = s17.push(("Argón", "Ar"));
    let s19 = s18.push(("Potasio", "K"));
    let s20 = s19.push(("Calcio", "Ca"));
    let s21 = s20.push(("Escandio", "Sc"));
    let s22 = s21.push(("Titanio", "Ti"));
    let s23 = s22.push(("Vanadio", "V"));
    let s24 = s23.push(("Cromo", "Cr"));
    let s25 = s24.push(("Manganeso", "Mn"));
    let s26 = s25.push(("Hierro", "Fe"));
    let s27 = s26.push(("Cobalto", "Co"));
    let s28 = s27.push(("Niquel", "Ni"));
    let s29 = s28.push(("Cobre", "Cu"));
    let s30 = s29.push(("Zinc", "Zn"));
    let s31 = s30.push(("Galio", "Ga"));
    let s32 = s31.push(("Germanio", "Ge"));
    let s33 = s32.push(("Arsénico", "As"));
    let s34 = s33.push(("Selenio", "Se"));
    let s35 = s34.push(("Bromo", "Br"));
    let s36 = s35.push(("Criptón", "Kr"));
    let s37 = s36.push(("Rubidio", "Rb"));
    let s38 = s37.push(("Estroncio", "Sr"));
    let s39 = s38.push(("Itrio", "Y"));
    let s40 = s39.push(("Zirconio", "Zr"));
    let s41 = s40.push(("Niobio", "Nb"));
    let s42 = s41.push(("Molibdeno", "Mo"));
    let s43 = s42.push(("Tecnecio", "Tc"));
    let s44 = s43.push(("Rutenio", "Ru"));
    let s45 = s44.push(("Rodio", "Rh"));
    let s46 = s45.push(("Paladio", "Pd"));
    let s47 = s46.push(("Plata", "Ag"));
    let s48 = s47.push(("Cadmio", "Cd"));
    let s49 = s48.push(("Indio", "In"));
    let s50 = s49.push(("Estaño", "Sn"));
    let s51 = s50.push(("Antimonio", "Sb"));
    let s52 = s51.push(("Telurio", "Te"));
    let s53 = s52.push(("Yodo", "I"));
    let s54 = s53.push(("Xenón", "Xe"));
    let s55 = s54.push(("Cesio", "Cs"));
    let s56 = s55.push(("Bario", "Ba"));
    let s57 = s56.push(("Lantano", "La"));
    let s58 = s57.push(("Cerio", "Ce"));
    let s59 = s58.push(("Praseodimio", "Pr"));
    let s60 = s59.push(("Neodimio", "Nd"));
    let s61 = s60.push(("Prometio", "Pm"));
    let s62 = s61.push(("Samario", "Sm"));
    let s63 = s62.push(("Europio", "Eu"));
    let s64 = s63.push(("Gadolino", "Gd"));
    let s65 = s64.push(("Terbio", "Tb"));
    let s66 = s65.push(("Disprosio", "Dy"));
    let s67 = s66.push(("Holmio", "Ho"));
    let s68 = s67.push(("Erbio", "Er"));
    let s69 = s68.push(("Tulio", "Tm"));
    let s70 = s69.push(("Iterbio", "Yb"));
    let s71 = s70.push(("Lutecio", "Lu"));
    let s72 = s71.push(("Hafnio", "Hf"));
    let s73 = s72.push(("Tantalio", "Ta"));
    let s74 = s73.push(("Tungsteno", "W"));
    let s75 = s74.push(("Renio", "Re"));
    let s76 = s75.push(("Osmio", "Os"));
    let s77 = s76.push(("Iridio", "Ir"));
    let s78 = s77.push(("Platino", "Pt"));
    let s79 = s78.push(("Oro", "Au"));
    let s80 = s79.push(("Mercurio", "Hg"));
    let s81 = s80.push(("Talio", "Tl"));
    let s82 = s81.push(("Plomo", "Pb"));
    let s83 = s82.push(("Bismuto", "Bi"));
    let s84 = s83.push(("Polonio", "Po"));
    let s85 = s84.push(("Astato", "At"));
    let s86 = s85.push(("Radón", "Rn"));
    let s87 = s86.push(("Francio", "Fr"));
    let s88 = s87.push(("Radio", "Ra"));
    let s89 = s88.push(("Actinio", "Ac"));
    let s90 = s89.push(("Torio", "Th"));
    let s91 = s90.push(("Protactinio", "Pa"));
    let s92 = s91.push(("Uranio", "U"));
    let s93 = s92.push(("Neptunio", "Np"));
    let s94 = s93.push(("Plutonio", "Pu"));
    let s95 = s94.push(("Americio", "Am"));
    let s96 = s95.push(("Curio", "Cm"));
    let s97 = s96.push(("Berquelio", "Bk"));
    let s98 = s97.push(("Californio", "Cf"));
    let s99 = s98.push(("Einstenio", "Es"));
    let s100 = s99.push(("Fermio", "Fm"));
    let s101 = s100.push(("Mendelevio", "Md"));
    let s102 = s101.push(("Nobelio", "No"));
    let s103 = s102.push(("Laurencio", "Lr"));
    let s104 = s103.push(("Rutherfordio", "Rf"));
    let s105 = s104.push(("Dubnio", "Db"));
    let s106 = s105.push(("Seaborgio", "Sg"));
    let s107 = s106.push(("Bohrio", "Bh"));
    let s108 = s107.push(("Hassio", "Hs"));
    let s109 = s108.push(("Meitnerio", "Mt"));
    let s110 = s109.push(("Darmstadtio", "Ds"));
    let s111 = s110.push(("Roentgenio", "Rg"));
    let s112 = s111.push(("Copernicio", "Cn"));
    let s113 = s112.push(("Nihonio", "Nh"));
    let s114 = s113.push(("Flerovio", "Fl"));
    let s115 = s114.push(("Moscovio", "Mc"));
    let s116 = s115.push(("Livermorio", "Lv"));
    let s117 = s116.push(("Teneso", "Ts"));
    let s118 = s117.push(("Oganesón", "Og"));
    assert(s0.len() == 0);
    assert(s1.len() == 1);
    assert(s2.len() == 2);
    assert(s3.len() == 3);
    assert(s4.len() == 4);
    assert(s5.len() == 5);
    assert(s6.len() == 6);
    assert(s7.len() == 7);
    assert(s8.len() == 8);
    assert(s9.len() == 9);
    assert(s10.len() == 10);
    assert(s11.len() == 11);
    assert(s12.len() == 12);
    assert(s13.len() == 13);
    assert(s14.len() == 14);
    assert(s15.len() == 15);
    assert(s16.len() == 16);
    assert(s17.len() == 17);
    assert(s18.len() == 18);
    assert(s19.len() == 19);
    assert(s20.len() == 20);
    assert(s21.len() == 21);
    assert(s22.len() == 22);
    assert(s23.len() == 23);
    assert(s24.len() == 24);
    assert(s25.len() == 25);
    assert(s26.len() == 26);
    assert(s27.len() == 27);
    assert(s28.len() == 28);
    assert(s29.len() == 29);
    assert(s30.len() == 30);
    assert(s31.len() == 31);
    assert(s32.len() == 32);
    assert(s33.len() == 33);
    assert(s34.len() == 34);
    assert(s35.len() == 35);
    assert(s36.len() == 36);
    assert(s37.len() == 37);
    assert(s38.len() == 38);
    assert(s39.len() == 39);
    assert(s40.len() == 40);
    assert(s41.len() == 41);
    assert(s42.len() == 42);
    assert(s43.len() == 43);
    assert(s44.len() == 44);
    assert(s45.len() == 45);
    assert(s46.len() == 46);
    assert(s47.len() == 47);
    assert(s48.len() == 48);
    assert(s49.len() == 49);
    assert(s50.len() == 50);
    assert(s51.len() == 51);
    assert(s52.len() == 52);
    assert(s53.len() == 53);
    assert(s54.len() == 54);
    assert(s55.len() == 55);
    assert(s56.len() == 56);
    assert(s57.len() == 57);
    assert(s58.len() == 58);
    assert(s59.len() == 59);
    assert(s60.len() == 60);
    assert(s61.len() == 61);
    assert(s62.len() == 62);
    assert(s63.len() == 63);
    assert(s64.len() == 64);
    assert(s65.len() == 65);
    assert(s66.len() == 66);
    assert(s67.len() == 67);
    assert(s68.len() == 68);
    assert(s69.len() == 69);
    assert(s70.len() == 70);
    assert(s71.len() == 71);
    assert(s72.len() == 72);
    assert(s73.len() == 73);
    assert(s74.len() == 74);
    assert(s75.len() == 75);
    assert(s76.len() == 76);
    assert(s77.len() == 77);
    assert(s78.len() == 78);
    assert(s79.len() == 79);
    assert(s80.len() == 80);
    assert(s81.len() == 81);
    assert(s82.len() == 82);
    assert(s83.len() == 83);
    assert(s84.len() == 84);
    assert(s85.len() == 85);
    assert(s86.len() == 86);
    assert(s87.len() == 87);
    assert(s88.len() == 88);
    assert(s89.len() == 89);
    assert(s90.len() == 90);
    assert(s91.len() == 91);
    assert(s92.len() == 92);
    assert(s93.len() == 93);
    assert(s94.len() == 94);
    assert(s95.len() == 95);
    assert(s96.len() == 96);
    assert(s97.len() == 97);
    assert(s98.len() == 98);
    assert(s99.len() == 99);
    assert(s100.len() == 100);
    assert(s101.len() == 101);
    assert(s102.len() == 102);
    assert(s103.len() == 103);
    assert(s104.len() == 104);
    assert(s105.len() == 105);
    assert(s106.len() == 106);
    assert(s107.len() == 107);
    assert(s108.len() == 108);
    assert(s109.len() == 109);
    assert(s110.len() == 110);
    assert(s111.len() == 111);
    assert(s112.len() == 112);
    assert(s113.len() == 113);
    assert(s114.len() == 114);
    assert(s115.len() == 115);
    assert(s116.len() == 116);
    assert(s117.len() == 117);
    assert(s118.len() == 118);
    assert(s118 == spec_table());
}

impl ChemicalElement {
    pub fn new(atomic_number: u8, name: String, symbol: String) -> (r: Self)
        ensures
            r@.atomic_number == atomic_number as int,
            r@.name == name@,
            r@.symbol == symbol@,
    {
        Self { atomic_number, name, symbol }
    }

    pub fn atomic_number(&self) -> (r: u8)
        ensures
            r as int == self@.atomic_number,
    {
        self.atomic_number
    }

    pub fn name(&self) -> (r: &str)
        ensures
            r@ == self@.name,
    {
        self.name.as_str()
    }

    pub fn symbol(&self) -> (r: &str)
        ensures
            r@ == self@.symbol,
    {
        self.symbol.as_str()
    }

    /// The directory as a value, in its fixed order.
    pub fn all_attributes() -> (r: Vec<(&'static str, &'static str)>)
        ensures
            r@ == spec_table(),
    {
        let mut v: Vec<(&'static str, &'static str)> = Vec::new();
        v.push(("Hidrógeno", "H"));
        v.push(("Helio", "He"));
        v.push(("Litio", "Li"));
        v.push(("Berilio", "Be"));
        v.push(("Boro", "B"));
        v.push(("Carbono", "C"));
        v.push(("Nitrógeno", "N"));
        v.push(("Oxígeno", "O"));
        v.push(("Flúor", "F"));
        v.push(("Neón", "Ne"));
        v.push(("Sodio", "Na"));
        v.push(("Magnesio", "Mg"));
        v.push(("Aluminio", "Al"));
        v.push(("Silicio", "Si"));
        v.push(("Fósforo", "P"));
        v.push(("Azufre", "S"));
        v.push(("Cloro", "Cl"));
        v.push(("Argón", "Ar"));
        v.push(("Potasio", "K"));
        v.push(("Calcio", "Ca"));
        v.push(("Escandio", "Sc"));
        v.push(("Titanio", "Ti"));
        v.push(("Vanadio", "V"));
        v.push(("Cromo", "Cr"));
        v.push(("Manganeso", "Mn"));
        v.push(("Hierro", "Fe"));
        v.push(("Cobalto", "Co"));
        v.push(("Niquel", "Ni"));
        v.push(("Cobre", "Cu"));
        v.push(("Zinc", "Zn"));
        v.push(("Galio", "Ga"));
        v.push(("Germanio", "Ge"));
        v.push(("Arsénico", "As"));
        v.push(("Selenio", "Se"));
        v.push(("Bromo", "Br"));
        v.push(("Criptón", "Kr"));
        v.push(("Rubidio", "Rb"));
        v.push(("Estroncio", "Sr"));
        v.push(("Itrio", "Y"));
        v.push(("Zirconio", "Zr"));
        v.push(("Niobio", "Nb"));
        v.push(("Molibdeno", "Mo"));
        v.push(("Tecnecio", "Tc"));
        v.push(("Rutenio", "Ru"));
        v.push(("Rodio", "Rh"));
        v.push(("Paladio", "Pd"));
        v.push(("Plata", "Ag"));
        v.push(("Cadmio", "Cd"));
        v.push(("Indio", "In"));
        v.push(("Estaño", "Sn"));
        v.push(("Antimonio", "Sb"));
        v.push(("Telurio", "Te"));
        v.push(("Yodo", "I"));
        v.push(("Xenón", "Xe"));
        v.push(("Cesio", "Cs"));
        v.push(("Bario", "Ba"));
        v.push(("Lantano", "La"));
        v.push(("Cerio", "Ce"));
        v.push(("Praseodimio", "Pr"));
        v.push(("Neodimio", "Nd"));
        v.push(("Prometio", "Pm"));
        v.push(("Samario", "Sm"));
        v.push(("Europio", "Eu"));
        v.push(("Gadolino", "Gd"));
        v.push(("Terbio", "Tb"));
        v.push(("Disprosio", "Dy"));
        v.push(("Holmio", "Ho"));
        v.push(("Erbio", "Er"));
        v.push(("Tulio", "Tm"));
        v.push(("Iterbio", "Yb"));
        v.push(("Lutecio", "Lu"));
        v.push(("Hafnio", "Hf"));
        v.push(("Tantalio", "Ta"));
        v.push(("Tungsteno", "W"));
        v.push(("Renio", "Re"));
        v.push(("Osmio", "Os"));
        v.push(("Iridio", "Ir"));
        v.push(("Platino", "Pt"));
        v.push(("Oro", "Au"));
        v.push(("Mercurio", "Hg"));
        v.push(("Talio", "Tl"));
        v.push(("Plomo", "Pb"));
        v.push(("Bismuto", "Bi"));
        v.push(("Polonio", "Po"));
        v.push(("Astato", "At"));
        v.push(("Radón", "Rn"));
        v.push(("Francio", "Fr"));
        v.push(("Radio", "Ra"));
        v.push(("Actinio", "Ac"));
        v.push(("Torio", "Th"));
        v.push(("Protactinio", "Pa"));
        v.push(("Uranio", "U"));
        v.push(("Neptunio", "Np"));
        v.push(("Plutonio", "Pu"));
        v.push(("Americio", "Am"));
        v.push(("Curio", "Cm"));
        v.push(("Berquelio", "Bk"));
        v.push(("Californio", "Cf"));
        v.push(("Einstenio", "Es"));
        v.push(("Fermio", "Fm"));
        v.push(("Mendelevio", "Md"));
        v.push(("Nobelio", "No"));
        v.push(("Laurencio", "Lr"));
        v.push(("Rutherfordio", "Rf"));
        v.push(("Dubnio", "Db"));
        v.push(("Seaborgio", "Sg"));
        v.push(("Bohrio", "Bh"));
        v.push(("Hassio", "Hs"));
        v.push(("Meitnerio", "Mt"));
        v.push(("Darmstadtio", "Ds"));
        v.push(("Roentgenio", "Rg"));
        v.push(("Copernicio", "Cn"));
        v.push(("Nihonio", "Nh"));
        v.push(("Flerovio", "Fl"));
        v.push(("Moscovio", "Mc"));
        v.push(("Livermorio", "Lv"));
        v.push(("Teneso", "Ts"));
        v.push(("Oganesón", "Og"));
        proof {
            assert(v@ == spec_table());
        }
        v
    }

    pub fn from_atomic_number(atomic_number: u8) -> (r: Result<Self, CreationError>)
        ensures
            (1 <= atomic_number <= spec_table().len()) <==> r is Ok,
            r matches Ok(e) ==> {
                &&& e@.atomic_number == atomic_number as int
                &&& e@.name == spec_table()[atomic_number - 1].0@
                &&& e@.symbol == spec_table()[atomic_number - 1].1@
            },
            r matches Err(err) ==> err == CreationError::AtomicNumberNotFound(atomic_number),
    {
        proof {
            lemma_table_len();
        }
        let table = Self::all_attributes();
        if atomic_number == 0 {
            return Err(CreationError::AtomicNumberNotFound(atomic_number));
        }
        let idx = (atomic_number - 1) as usize;
        if idx >= table.len() {
            return Err(CreationError::AtomicNumberNotFound(atomic_number));
        }
        let (name, symbol) = table[idx];
        Ok(Self::new(atomic_number, name.to_owned(), symbol.to_owned()))
    }

    pub fn from_name(name: &str) -> (r: Result<Self, CreationError>)
        ensures
            r is Err <==> (forall|j: int|
                0 <= j < spec_table().len() ==> !name_matches_at(name@, j)),
            r matches Ok(e) ==> {
                &&& 1 <= e@.atomic_number <= spec_table().len()
                &&& name_matches_at(name@, e@.atomic_number - 1)
                &&& forall|j: int| 0 <= j < e@.atomic_number - 1 ==> !name_matches_at(name@, j)
                &&& e@.name == spec_table()[e@.atomic_number - 1].0@
                &&& e@.symbol == spec_table()[e@.atomic_number - 1].1@
            },
            r matches Err(err) ==> err matches CreationError::NameNotFound(t) && t@ == name@,
    {
        proof {
            lemma_table_len();
        }
        let table = Self::all_attributes();
        let query = sanitize(name);
        let mut i: usize = 0;
        while i < table.len()
            invariant
                table@ == spec_table(),
                query@ == spec_normalize(name@),
                i <= spec_table().len(),
                spec_table().len() == 118,
                forall|j: int| 0 <= j < i ==> !name_matches_at(name@, j),
            decreases spec_table().len() - i,
        {
            let (el_name, el_symbol) = table[i];
            if sanitize(el_name) == query {
                proof {
                    assert(name_matches_at(name@, i as int));
                }
                return Ok(Self::new((i as u8) + 1, el_name.to_owned(), el_symbol.to_owned()));
            }
            i = i + 1;
        }
        Err(CreationError::NameNotFound(name.to_owned()))
    }

    pub fn from_symbol(symbol: &str) -> (r: Result<Self, CreationError>)
        ensures
            r is Err <==> (forall|j: int|
                0 <= j < spec_table().len() ==> !symbol_matches_at(symbol@, j)),
            r matches Ok(e) ==> {
                &&& 1 <= e@.atomic_number <= spec_table().len()
                &&& symbol_matches_at(symbol@, e@.atomic_number - 1)
                &&& forall|j: int| 0 <= j < e@.atomic_number - 1 ==> !symbol_matches_at(symbol@, j)
                &&& e@.name == spec_table()[e@.atomic_number - 1].0@
                &&& e@.symbol == spec_table()[e@.atomic_number - 1].1@
            },
            r matches Err(err) ==> err matches CreationError::SymbolNotFound(t) && t@ == symbol@,
    {
        proof {
            lemma_table_len();
        }
        let table = Self::all_attributes();
        let query = sanitize(symbol);
        let mut i: usize = 0;
        while i < table.len()
            invariant
                table@ == spec_table(),
                query@ == spec_normalize(symbol@),
                i <= spec_table().len(),
                spec_table().len() == 118,
                forall|j: int| 0 <= j < i ==> !symbol_matches_at(symbol@, j),
            decreases spec_table().len() - i,
        {
            let (el_name, el_symbol) = table[i];
            if sanitize(el_symbol) == query {
                proof {
                    assert(symbol_matches_at(symbol@, i as int));
                }
                return Ok(Self::new((i as u8) + 1, el_name.to_owned(), el_symbol.to_owned()));
            }
            i = i + 1;
        }
        Err(CreationError::SymbolNotFound(symbol.to_owned()))
    }
}

/// Checks at run time that no two directory entries share a normalized
/// name: the hypothesis of the round-trip laws.
#[verifier::rlimit(100)]
pub fn distinct_normalized_names() -> (b: bool)
    ensures
        b == names_distinct(spec_table()),
{
    proof {
        lemma_table_len();
    }
    let table = ChemicalElement::all_attributes();
    let mut i: usize = 0;
    while i < table.len()
        invariant
            table@ == spec_table(),
            spec_table().len() == 118,
            i <= spec_table().len(),
            forall|p: int, q: int|
                0 <= p < q < spec_table().len() && p < i
                    ==> spec_normalize(spec_table()[p].0@) != spec_normalize(spec_table()[q].0@),
        decreases spec_table().len() - i,
    {
        let (base, _) = table[i];
        let base_norm = sanitize(base);
        let mut j: usize = i + 1;
        while j < table.len()
            invariant
                table@ == spec_table(),
                i < spec_table().len(),
                i + 1 <= j <= spec_table().len(),
                spec_table().len() == 118,
                base_norm@ == spec_normalize(spec_table()[i as int].0@),
                forall|q: int|
                    i < q < j ==> spec_normalize(spec_table()[i as int].0@) != spec_normalize(
                        spec_table()[q].0@),
            decreases spec_table().len() - j,
        {
            let (other, _) = table[j];
            if sanitize(other) == base_norm {
                return false;
            }
            j = j + 1;
        }
        i = i + 1;
    }
    true
}

/// Checks at run time that no two directory entries share a normalized
/// symbol: the hypothesis of the round-trip laws.
#[verifier::rlimit(100)]
pub fn distinct_normalized_symbols() -> (b: bool)
    ensures
        b == symbols_distinct(spec_table()),
{
    proof {
        lemma_table_len();
    }
    let table = ChemicalElement::all_attributes();
    let mut i: usize = 0;
    while i < table.len()
        invariant
            table@ == spec_table(),
            spec_table().len() == 118,
            i <= spec_table().len(),
            forall|p: int, q: int|
                0 <= p < q < spec_table().len() && p < i
                    ==> spec_normalize(spec_table()[p].1@) != spec_normalize(spec_table()[q].1@),
        decreases spec_table().len() - i,
    {
        let (_, base) = table[i];
        let base_norm = sanitize(base);
        let mut j: usize = i + 1;
        while j < table.len()
            invariant
                table@ == spec_table(),
                i < spec_table().len(),
                i + 1 <= j <= spec_table().len(),
                spec_table().len() == 118,
                base_norm@ == spec_normalize(spec_table()[i as int].1@),
                forall|q: int|
                    i < q < j ==> spec_normalize(spec_table()[i as int].1@) != spec_normalize(
                        spec_table()[q].1@),
            decreases spec_table().len() - j,
        {
            let (_, other) = table[j];
            if sanitize(other) == base_norm {
                return false;
            }
            j = j + 1;
        }
        i = i + 1;
    }
    true
}

/// Law: the name round trip. Where normalized names are pairwise distinct,
/// the one table position whose name matches element `n`'s own name is
/// position `n - 1`; resolving by number and then by the resolved name
/// therefore yields the same atomic number.
pub proof fn lemma_name_round_trip(n: int)
    requires
        1 <= n <= spec_table().len(),
        names_distinct(spec_table()),
    ensures
        name_matches_at(spec_table()[n - 1].0@, n - 1),
        forall|j: int|
            0 <= j < spec_table().len() && #[trigger] name_matches_at(spec_table()[n - 1].0@, j)
                ==> j == n - 1,
{
    assert forall|j: int|
        0 <= j < spec_table().len() && #[trigger] name_matches_at(spec_table()[n - 1].0@, j)
        implies j == n - 1 by {
        if j < n - 1 {
            assert(spec_normalize(spec_table()[j].0@) != spec_normalize(spec_table()[n - 1].0@));
        } else if j > n - 1 {
            assert(spec_normalize(spec_table()[n - 1].0@) != spec_normalize(spec_table()[j].0@));
        }
    }
}

/// Law: the symbol round trip, as for names.
pub proof fn lemma_symbol_round_trip(n: int)
    requires
        1 <= n <= spec_table().len(),
        symbols_distinct(spec_table()),
    ensures
        symbol_matches_at(spec_table()[n - 1].1@, n - 1),
        forall|j: int|
            0 <= j < spec_table().len() && #[trigger] symbol_matches_at(spec_table()[n - 1].1@, j)
                ==> j == n - 1,
{
    assert forall|j: int|
        0 <= j < spec_table().len() && #[trigger] symbol_matches_at(spec_table()[n - 1].1@, j)
        implies j == n - 1 by {
        if j < n - 1 {
            assert(spec_normalize(spec_table()[j].1@) != spec_normalize(spec_table()[n - 1].1@));
        } else if j > n - 1 {
            assert(spec_normalize(spec_table()[n - 1].1@) != spec_normalize(spec_table()[j].1@));
        }
    }
}


} // verus!
