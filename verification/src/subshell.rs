//! The subshell filler and formatter: walks the fixed Madelung order of 19
//! orbital subshells, fills each to its capacity until the electron total is
//! exhausted, and renders the result with superscript electron counts.

use vstd::prelude::*;
use vstd::string::*;

use crate::element::ChemicalElement;

verus! {

/// The mathematical content of one filled subshell.
pub ghost struct SubshellView {
    pub kind: char,
    pub period: int,
    pub count: int,
}

/// The kinds of orbital subshells, written as the fill order writes them:
/// `S` and `P` uppercase, `d` and `f` lowercase.
pub open spec fn is_orbital_kind(kind: char) -> bool {
    kind == 'S' || kind == 'P' || kind == 'd' || kind == 'f'
}

/// The electron capacity of a subshell kind: s holds 2, p holds 6, d holds
/// 10 and f holds 14.
pub open spec fn spec_capacity(kind: char) -> int {
    if kind == 'S' {
        2
    } else if kind == 'P' {
        6
    } else if kind == 'd' {
        10
    } else if kind == 'f' {
        14
    } else {
        0
    }
}

/// The period of the `i`-th entry of the fill order.
pub open spec fn spec_order_period(i: int) -> int {
    if i == 0 {
        1
    } else if 1 <= i <= 2 {
        2
    } else if 3 <= i <= 4 || i == 6 {
        3
    } else if i == 5 || i == 7 || i == 9 || i == 12 {
        4
    } else if i == 8 || i == 10 || i == 13 || i == 16 {
        5
    } else if i == 11 || i == 14 || i == 17 {
        6
    } else if i == 15 || i == 18 {
        7
    } else {
        0
    }
}

/// The kind of the `i`-th entry of the fill order.
pub open spec fn spec_order_kind(i: int) -> char {
    if i == 0 || i == 1 || i == 3 || i == 5 || i == 8 || i == 11 || i == 15 {
        'S'
    } else if i == 2 || i == 4 || i == 7 || i == 10 || i == 14 || i == 18 {
        'P'
    } else if i == 6 || i == 9 || i == 13 || i == 17 {
        'd'
    } else if i == 12 || i == 16 {
        'f'
    } else {
        ' '
    }
}

/// The subshell emitted for order entry `i` with `count` electrons.
pub open spec fn fill_entry(i: int, count: int) -> SubshellView {
    SubshellView { kind: spec_order_kind(i), period: spec_order_period(i), count }
}

/// The filling algorithm itself, from order entry `i` on: while the entry's
/// capacity is below what remains, emit a full subshell and carry the rest to
/// the next entry; otherwise emit the remainder and stop.
pub open spec fn spec_fill_from(i: int, remaining: int) -> Seq<SubshellView>
    decreases 19 - i,
{
    if 0 <= i < 19 {
        let cap = spec_capacity(spec_order_kind(i));
        if cap >= remaining {
            seq![fill_entry(i, remaining)]
        } else {
            seq![fill_entry(i, cap)] + spec_fill_from(i + 1, remaining - cap)
        }
    } else {
        Seq::empty()
    }
}

/// The combined capacity of the order entries from `i` on.
pub open spec fn spec_capacity_from(i: int) -> int
    decreases 19 - i,
{
    if 0 <= i < 19 {
        spec_capacity(spec_order_kind(i)) + spec_capacity_from(i + 1)
    } else {
        0
    }
}

/// The sum of the electron counts of a sequence of subshells.
pub open spec fn spec_count_sum(s: Seq<SubshellView>) -> int
    decreases s.len(),
{
    if s.len() == 0 {
        0
    } else {
        s[0].count + spec_count_sum(s.drop_first())
    }
}

/// A subshell that the filler can produce: a kind of the order, a period of
/// the order, and a count within the kind's capacity.
pub open spec fn valid_view(v: SubshellView) -> bool {
    &&& is_orbital_kind(v.kind)
    &&& 1 <= v.period <= 7
    &&& 0 <= v.count <= spec_capacity(v.kind)
}

/// One filled subshell: a kind, the period it sits in, and how many
/// electrons it holds.
pub struct Subshell {
    kind: char,
    period: u8,
    value: u8,
}

impl View for Subshell {
    type V = SubshellView;

    closed spec fn view(&self) -> SubshellView {
        SubshellView { kind: self.kind, period: self.period as int, count: self.value as int }
    }
}

/// The views of a sequence of subshells, in order.
pub open spec fn views_of(s: Seq<Subshell>) -> Seq<SubshellView> {
    Seq::new(s.len(), |i: int| s[i]@)
}

impl Subshell {
    pub fn new(kind: char, period: u8, value: u8) -> (r: Self)
        ensures
            r@ == (SubshellView { kind, period: period as int, count: value as int }),
    {
        Self { kind, period, value }
    }

    /// The capacity of a subshell kind.
    pub fn get_value(kind: char) -> (r: u8)
        requires
            is_orbital_kind(kind),
        ensures
            r as int == spec_capacity(kind),
    {
        match kind {
            'S' => 2,
            'P' => 6,
            'd' => 10,
            'f' => 14,
            _ => {
                proof {
                    assert(false);
                }
                0
            },
        }
    }

    pub fn kind(&self) -> (r: char)
        ensures
            r == self@.kind,
    {
        self.kind
    }

    pub fn period(&self) -> (r: u8)
        ensures
            r as int == self@.period,
    {
        self.period
    }

    pub fn value(&self) -> (r: u8)
        ensures
            r as int == self@.count,
    {
        self.value
    }
}

/// An ordered electron configuration: the subshells in the order the fill
/// consumed them.
pub struct Subshells {
    items: Vec<Subshell>,
}

impl View for Subshells {
    type V = Seq<SubshellView>;

    closed spec fn view(&self) -> Seq<SubshellView> {
        views_of(self.items@)
    }
}

impl Subshells {
    /// Every held subshell is one the filler can produce.
    pub open spec fn wf(&self) -> bool {
        forall|i: int| 0 <= i < self@.len() ==> valid_view(#[trigger] self@[i])
    }

    pub fn len(&self) -> (n: usize)
        ensures
            n == self@.len(),
    {
        self.items.len()
    }

    pub fn get(&self, i: usize) -> (s: &Subshell)
        requires
            i < self@.len(),
        ensures
            s@ == self@[i as int],
    {
        &self.items[i]
    }
}

/// A type with an electron total whose subshell configuration can be filled.
pub trait AsSubshells {
    /// The electron total the configuration is computed for.
    spec fn spec_electrons(&self) -> int;

    /// Walks the fixed fill order and fills each subshell in turn with what
    /// remains of the electron total.
    fn as_subshells(&self) -> (r: Subshells)
        ensures
            r@ == spec_fill_from(0, self.spec_electrons()),
            r.wf(),
    ;
}

impl AsSubshells for ChemicalElement {
    open spec fn spec_electrons(&self) -> int {
        self@.atomic_number
    }

    fn as_subshells(&self) -> (r: Subshells) {
        let total = self.atomic_number();
        let mut items: Vec<Subshell> = Vec::new();
        let mut remaining: u8 = total;
        let mut i: usize = 0;
        loop
            invariant_except_break
                i <= 19,
                remaining <= total,
                spec_fill_from(0, total as int) == views_of(items@) + spec_fill_from(
                    i as int,
                    remaining as int,
                ),
            ensures
                views_of(items@) == spec_fill_from(0, total as int),
            decreases 19 - i,
        {
            if i >= 19 {
                proof {
                    assert(spec_fill_from(19, remaining as int) =~= Seq::<SubshellView>::empty());
                    assert(views_of(items@) + Seq::<SubshellView>::empty() =~= views_of(items@));
                }
                break;
            }
            proof {
                assert(is_orbital_kind(spec_order_kind(i as int)));
                assert(1 <= spec_order_period(i as int) <= 7);
            }
            let (period, kind) = order_entry(i);
            let cap = Subshell::get_value(kind);
            let ghost old_items = items@;
            if cap >= remaining {
                items.push(Subshell::new(kind, period, remaining));
                proof {
                    assert(spec_fill_from(i as int, remaining as int) =~= seq![
                        fill_entry(i as int, remaining as int),
                    ]);
                    assert(views_of(items@) =~= views_of(old_items).push(
                        fill_entry(i as int, remaining as int),
                    ));
                    assert(views_of(items@) =~= views_of(old_items) + spec_fill_from(
                        i as int,
                        remaining as int,
                    ));
                }
                break;
            } else {
                items.push(Subshell::new(kind, period, cap));
                proof {
                    assert(views_of(items@) =~= views_of(old_items).push(
                        fill_entry(i as int, cap as int),
                    ));
                    assert(views_of(old_items) + spec_fill_from(i as int, remaining as int)
                        =~= views_of(items@) + spec_fill_from(
                        i + 1,
                        remaining as int - cap as int,
                    ));
                }
                remaining = remaining - cap;
                i = i + 1;
            }
        }
        let result = Subshells { items };
        proof {
            lemma_fill_wf(0, total as int);
        }
        result
    }
}

/// The `i`-th entry of the fill order, as (period, kind).
fn order_entry(i: usize) -> (r: (u8, char))
    requires
        i < 19,
    ensures
        r.0 as int == spec_order_period(i as int),
        r.1 == spec_order_kind(i as int),
{
    match i {
        0 => (1, 'S'),
        1 => (2, 'S'),
        2 => (2, 'P'),
        3 => (3, 'S'),
        4 => (3, 'P'),
        5 => (4, 'S'),
        6 => (3, 'd'),
        7 => (4, 'P'),
        8 => (5, 'S'),
        9 => (4, 'd'),
        10 => (5, 'P'),
        11 => (6, 'S'),
        12 => (4, 'f'),
        13 => (5, 'd'),
        14 => (6, 'P'),
        15 => (7, 'S'),
        16 => (5, 'f'),
        17 => (6, 'd'),
        18 => (7, 'P'),
        _ => {
            proof {
                assert(false);
            }
            (0, ' ')
        },
    }
}

/// Law: every subshell the filler emits is one it can produce: a kind and
/// period of the order, and a count within the kind's capacity.
pub proof fn lemma_fill_wf(i: int, remaining: int)
    requires
        0 <= i <= 19,
        0 <= remaining,
    ensures
        forall|j: int|
            0 <= j < spec_fill_from(i, remaining).len() ==> valid_view(
                #[trigger] spec_fill_from(i, remaining)[j],
            ),
    decreases 19 - i,
{
    if i < 19 {
        let cap = spec_capacity(spec_order_kind(i));
        assert(is_orbital_kind(spec_order_kind(i)));
        assert(1 <= spec_order_period(i) <= 7);
        if cap >= remaining {
            assert(valid_view(spec_fill_from(i, remaining)[0]));
        } else {
            lemma_fill_wf(i + 1, remaining - cap);
            let rest = spec_fill_from(i + 1, remaining - cap);
            assert forall|j: int| 0 <= j < spec_fill_from(i, remaining).len() implies valid_view(
                #[trigger] spec_fill_from(i, remaining)[j],
            ) by {
                if j == 0 {
                    assert(spec_fill_from(i, remaining)[0] == fill_entry(i, cap));
                } else {
                    assert(spec_fill_from(i, remaining)[j] == rest[j - 1]);
                }
            }
        }
    }
}

/// The sum of the counts of `seq![x] + rest` splits off `x`'s count.
proof fn lemma_sum_prepend(x: SubshellView, rest: Seq<SubshellView>)
    ensures
        spec_count_sum(seq![x] + rest) == x.count + spec_count_sum(rest),
{
    let s = seq![x] + rest;
    assert(s[0] == x);
    assert(s.drop_first() =~= rest);
}

proof fn lemma_fill_sum_from(i: int, remaining: int)
    requires
        0 <= i <= 19,
        0 <= remaining <= spec_capacity_from(i),
    ensures
        spec_count_sum(spec_fill_from(i, remaining)) == remaining,
    decreases 19 - i,
{
    if i < 19 {
        let cap = spec_capacity(spec_order_kind(i));
        if cap >= remaining {
            let s = spec_fill_from(i, remaining);
            assert(s.drop_first() =~= Seq::<SubshellView>::empty());
            assert(spec_count_sum(Seq::<SubshellView>::empty()) == 0);
            assert(s[0] == fill_entry(i, remaining));
            assert(spec_count_sum(s) == remaining);
        } else {
            lemma_fill_sum_from(i + 1, remaining - cap);
            lemma_sum_prepend(fill_entry(i, cap), spec_fill_from(i + 1, remaining - cap));
        }
    }
}

/// Law: the order's combined capacity is 118 electrons.
pub proof fn lemma_total_capacity()
    ensures
        spec_capacity_from(0) == 118,
{
    assert(spec_capacity_from(19) == 0);
    assert(spec_capacity_from(18) == 6);
    assert(spec_capacity_from(17) == 16);
    assert(spec_capacity_from(16) == 30);
    assert(spec_capacity_from(15) == 32);
    assert(spec_capacity_from(14) == 38);
    assert(spec_capacity_from(13) == 48);
    assert(spec_capacity_from(12) == 62);
    assert(spec_capacity_from(11) == 64);
    assert(spec_capacity_from(10) == 70);
    assert(spec_capacity_from(9) == 80);
    assert(spec_capacity_from(8) == 82);
    assert(spec_capacity_from(7) == 88);
    assert(spec_capacity_from(6) == 98);
    assert(spec_capacity_from(5) == 100);
    assert(spec_capacity_from(4) == 106);
    assert(spec_capacity_from(3) == 108);
    assert(spec_capacity_from(2) == 114);
    assert(spec_capacity_from(1) == 116);
    assert(spec_capacity_from(0) == 118);
}

/// Law: for electron totals up to the order's combined capacity, the
/// electron counts of the filled subshells sum exactly to the total.
pub proof fn lemma_fill_counts_sum(n: int)
    requires
        0 <= n <= 118,
    ensures
        spec_count_sum(spec_fill_from(0, n)) == n,
{
    lemma_total_capacity();
    lemma_fill_sum_from(0, n);
}

proof fn lemma_fill_prefix_full_from(i: int, remaining: int)
    requires
        0 <= i <= 19,
        0 <= remaining,
    ensures
        forall|j: int|
            0 <= j < spec_fill_from(i, remaining).len() - 1 ==> (#[trigger] spec_fill_from(
                i,
                remaining,
            )[j]).count == spec_capacity(spec_fill_from(i, remaining)[j].kind),
    decreases 19 - i,
{
    if i < 19 {
        let cap = spec_capacity(spec_order_kind(i));
        if cap < remaining {
            lemma_fill_prefix_full_from(i + 1, remaining - cap);
            let rest = spec_fill_from(i + 1, remaining - cap);
            assert forall|j: int| 0 <= j < spec_fill_from(i, remaining).len() - 1 implies (
            #[trigger] spec_fill_from(i, remaining)[j]).count == spec_capacity(
                spec_fill_from(i, remaining)[j].kind,
            ) by {
                if j == 0 {
                    assert(spec_fill_from(i, remaining)[0] == fill_entry(i, cap));
                } else {
                    assert(spec_fill_from(i, remaining)[j] == rest[j - 1]);
                }
            }
        }
    }
}

/// Law: every filled subshell before the last holds exactly its capacity,
/// and the last holds between zero and its capacity.
pub proof fn lemma_fill_shape(n: int)
    requires
        0 <= n,
    ensures
        forall|j: int|
            0 <= j < spec_fill_from(0, n).len() - 1 ==> (#[trigger] spec_fill_from(0, n)[j]).count
                == spec_capacity(spec_fill_from(0, n)[j].kind),
        forall|j: int|
            0 <= j < spec_fill_from(0, n).len() ==> 0 <= (#[trigger] spec_fill_from(0, n)[j]).count
                <= spec_capacity(spec_fill_from(0, n)[j].kind),
{
    lemma_fill_prefix_full_from(0, n);
    lemma_fill_wf(0, n);
}

/// Law: filling is deterministic. Two configurations computed for the same
/// electron total are identical.
pub proof fn lemma_fill_deterministic(n: int, a: Seq<SubshellView>, b: Seq<SubshellView>)
    requires
        a == spec_fill_from(0, n),
        b == spec_fill_from(0, n),
    ensures
        a == b,
{
}


/// The decimal digit of a period, as a string.
pub open spec fn spec_period_str(p: int) -> Seq<char> {
    if p == 1 {
        "1"@
    } else if p == 2 {
        "2"@
    } else if p == 3 {
        "3"@
    } else if p == 4 {
        "4"@
    } else if p == 5 {
        "5"@
    } else if p == 6 {
        "6"@
    } else if p == 7 {
        "7"@
    } else {
        Seq::empty()
    }
}

/// The letter of a subshell kind, as a string.
pub open spec fn spec_kind_str(kind: char) -> Seq<char> {
    if kind == 'S' {
        "S"@
    } else if kind == 'P' {
        "P"@
    } else if kind == 'd' {
        "d"@
    } else if kind == 'f' {
        "f"@
    } else {
        Seq::empty()
    }
}

/// The Unicode superscript glyphs for an electron count from 0 to 14.
pub open spec fn spec_superscript(n: int) -> Seq<char> {
    if n == 0 {
        "\u{2070}"@
    } else if n == 1 {
        "\u{b9}"@
    } else if n == 2 {
        "\u{b2}"@
    } else if n == 3 {
        "\u{b3}"@
    } else if n == 4 {
        "\u{2074}"@
    } else if n == 5 {
        "\u{2075}"@
    } else if n == 6 {
        "\u{2076}"@
    } else if n == 7 {
        "\u{2077}"@
    } else if n == 8 {
        "\u{2078}"@
    } else if n == 9 {
        "\u{2079}"@
    } else if n == 10 {
        "\u{b9}\u{2070}"@
    } else if n == 11 {
        "\u{b9}\u{b9}"@
    } else if n == 12 {
        "\u{b9}\u{b2}"@
    } else if n == 13 {
        "\u{b9}\u{b3}"@
    } else if n == 14 {
        "\u{b9}\u{2074}"@
    } else {
        Seq::empty()
    }
}

/// The rendering of one subshell: period digit, kind letter, superscript
/// electron count.
pub open spec fn spec_render_subshell(v: SubshellView) -> Seq<char> {
    spec_period_str(v.period) + spec_kind_str(v.kind) + spec_superscript(v.count)
}

/// The rendering of a whole configuration: each subshell rendered, joined
/// with single spaces, no trailing separator.
pub open spec fn spec_render_seq(s: Seq<SubshellView>) -> Seq<char>
    decreases s.len(),
{
    if s.len() == 0 {
        Seq::empty()
    } else if s.len() == 1 {
        spec_render_subshell(s[0])
    } else {
        spec_render_seq(s.drop_last()) + " "@ + spec_render_subshell(s.last())
    }
}

fn period_str(p: u8) -> (r: &'static str)
    requires
        1 <= p <= 7,
    ensures
        r@ == spec_period_str(p as int),
{
    match p {
        1 => "1",
        2 => "2",
        3 => "3",
        4 => "4",
        5 => "5",
        6 => "6",
        7 => "7",
        _ => {
            proof {
                assert(false);
            }
            ""
        },
    }
}

fn kind_str(kind: char) -> (r: &'static str)
    requires
        is_orbital_kind(kind),
    ensures
        r@ == spec_kind_str(kind),
{
    match kind {
        'S' => "S",
        'P' => "P",
        'd' => "d",
        'f' => "f",
        _ => {
            proof {
                assert(false);
            }
            ""
        },
    }
}

fn superscript_str(n: u8) -> (r: &'static str)
    requires
        n <= 14,
    ensures
        r@ == spec_superscript(n as int),
{
    match n {
        0 => "\u{2070}",
        1 => "\u{b9}",
        2 => "\u{b2}",
        3 => "\u{b3}",
        4 => "\u{2074}",
        5 => "\u{2075}",
        6 => "\u{2076}",
        7 => "\u{2077}",
        8 => "\u{2078}",
        9 => "\u{2079}",
        10 => "\u{b9}\u{2070}",
        11 => "\u{b9}\u{b9}",
        12 => "\u{b9}\u{b2}",
        13 => "\u{b9}\u{b3}",
        14 => "\u{b9}\u{2074}",
        _ => {
            proof {
                assert(false);
            }
            ""
        },
    }
}

impl Subshell {
    /// Renders this subshell as period digit, kind letter and superscript
    /// electron count.
    pub fn render(&self) -> (r: String)
        requires
            valid_view(self@),
        ensures
            r@ == spec_render_subshell(self@),
    {
        let mut out = String::new();
        out.append(period_str(self.period));
        out.append(kind_str(self.kind));
        out.append(superscript_str(self.value));
        proof {
            assert(out@ =~= spec_render_subshell(self@));
        }
        out
    }
}

impl Subshells {
    /// Renders the configuration: each subshell rendered in order, joined
    /// with single spaces.
    pub fn render(&self) -> (r: String)
        requires
            self.wf(),
        ensures
            r@ == spec_render_seq(self@),
    {
        let mut out = String::new();
        let n = self.items.len();
        let mut i: usize = 0;
        while i < n
            invariant
                self.wf(),
                n == self@.len(),
                i <= n,
                out@ == spec_render_seq(self@.take(i as int)),
            decreases n - i,
        {
            if i > 0 {
                out.append(" ");
            }
            proof {
                assert(self.items@[i as int]@ == self@[i as int]);
                assert(valid_view(self.items@[i as int]@));
            }
            let piece = self.items[i].render();
            out.append(piece.as_str());
            proof {
                let next = self@.take(i + 1);
                assert(next.last() == self@[i as int]);
                if i == 0 {
                    assert(out@ =~= spec_render_seq(next));
                } else {
                    assert(next.drop_last() =~= self@.take(i as int));
                    assert(out@ =~= spec_render_seq(next));
                }
            }
            i = i + 1;
        }
        proof {
            assert(self@.take(n as int) =~= self@);
        }
        out
    }
}

/// The formatted configuration of an element: its subshells filled from its
/// atomic number, rendered and joined with single spaces.
pub fn configuration_text(element: &ChemicalElement) -> (r: String)
    ensures
        r@ == spec_render_seq(spec_fill_from(0, element@.atomic_number)),
{
    let shells = element.as_subshells();
    shells.render()
}

} // verus!
