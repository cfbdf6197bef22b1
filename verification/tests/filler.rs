//! Tests of the subshell filler and formatter.

use subshells::element::ChemicalElement;
use subshells::subshell::{AsSubshells, Subshell, Subshells, configuration_text};

fn fill_for(n: u8) -> Subshells {
    let e = ChemicalElement::new(n, "X".to_owned(), "X".to_owned());
    e.as_subshells()
}

#[test]
fn capacities_by_kind() {
    assert_eq!(Subshell::get_value('S'), 2);
    assert_eq!(Subshell::get_value('P'), 6);
    assert_eq!(Subshell::get_value('d'), 10);
    assert_eq!(Subshell::get_value('f'), 14);
}

#[test]
fn fill_hydrogen() {
    let shells = fill_for(1);
    assert_eq!(shells.len(), 1);
    let s = shells.get(0);
    assert_eq!(s.kind(), 'S');
    assert_eq!(s.period(), 1);
    assert_eq!(s.value(), 1);
    assert_eq!(shells.render(), "1S¹");
}

#[test]
fn fill_neon() {
    let shells = fill_for(10);
    assert_eq!(shells.len(), 3);
    let expect: [(u8, char, u8); 3] = [(1, 'S', 2), (2, 'S', 2), (2, 'P', 6)];
    let mut i: usize = 0;
    while i < 3 {
        let s = shells.get(i);
        assert_eq!(s.period(), expect[i].0);
        assert_eq!(s.kind(), expect[i].1);
        assert_eq!(s.value(), expect[i].2);
        i += 1;
    }
    assert_eq!(shells.render(), "1S² 2S² 2P⁶");
}

#[test]
fn fill_118_saturates_the_whole_order() {
    let order: [(u8, char); 19] = [
        (1, 'S'),
        (2, 'S'),
        (2, 'P'),
        (3, 'S'),
        (3, 'P'),
        (4, 'S'),
        (3, 'd'),
        (4, 'P'),
        (5, 'S'),
        (4, 'd'),
        (5, 'P'),
        (6, 'S'),
        (4, 'f'),
        (5, 'd'),
        (6, 'P'),
        (7, 'S'),
        (5, 'f'),
        (6, 'd'),
        (7, 'P'),
    ];
    let shells = fill_for(118);
    assert_eq!(shells.len(), 19);
    let mut sum: u32 = 0;
    let mut i: usize = 0;
    while i < 19 {
        let s = shells.get(i);
        assert_eq!(s.period(), order[i].0);
        assert_eq!(s.kind(), order[i].1);
        assert_eq!(s.value(), Subshell::get_value(order[i].1));
        sum += s.value() as u32;
        i += 1;
    }
    assert_eq!(sum, 118);
}

#[test]
fn fill_counts_sum_to_the_atomic_number() {
    let mut n: u8 = 1;
    while n <= 118 {
        let shells = fill_for(n);
        let mut sum: u32 = 0;
        let mut i: usize = 0;
        while i < shells.len() {
            sum += shells.get(i).value() as u32;
            i += 1;
        }
        assert_eq!(sum, n as u32);
        n += 1;
    }
}

#[test]
fn fill_fills_every_subshell_before_the_last() {
    let mut n: u8 = 1;
    while n <= 118 {
        let shells = fill_for(n);
        let len = shells.len();
        let mut i: usize = 0;
        while i < len {
            let s = shells.get(i);
            let cap = Subshell::get_value(s.kind());
            if i + 1 < len {
                assert_eq!(s.value(), cap);
            } else {
                assert!(s.value() <= cap);
            }
            i += 1;
        }
        n += 1;
    }
}

#[test]
fn fill_is_deterministic() {
    let mut n: u8 = 1;
    while n <= 118 {
        let a = fill_for(n);
        let b = fill_for(n);
        assert_eq!(a.len(), b.len());
        let mut i: usize = 0;
        while i < a.len() {
            assert_eq!(a.get(i).kind(), b.get(i).kind());
            assert_eq!(a.get(i).period(), b.get(i).period());
            assert_eq!(a.get(i).value(), b.get(i).value());
            i += 1;
        }
        assert_eq!(a.render(), b.render());
        n += 1;
    }
}

#[test]
fn render_superscripts() {
    assert_eq!(Subshell::new('S', 1, 0).render(), "1S⁰");
    assert_eq!(Subshell::new('S', 2, 2).render(), "2S²");
    assert_eq!(Subshell::new('P', 3, 5).render(), "3P⁵");
    assert_eq!(Subshell::new('d', 4, 10).render(), "4d¹⁰");
    assert_eq!(Subshell::new('f', 5, 11).render(), "5f¹¹");
    assert_eq!(Subshell::new('f', 4, 14).render(), "4f¹⁴");
    assert_eq!(Subshell::new('d', 6, 13).render(), "6d¹³");
    assert_eq!(Subshell::new('f', 5, 12).render(), "5f¹²");
    assert_eq!(Subshell::new('P', 7, 4).render(), "7P⁴");
    assert_eq!(Subshell::new('S', 6, 1).render(), "6S¹");
    assert_eq!(Subshell::new('P', 2, 3).render(), "2P³");
    assert_eq!(Subshell::new('d', 3, 6).render(), "3d⁶");
    assert_eq!(Subshell::new('d', 3, 7).render(), "3d⁷");
    assert_eq!(Subshell::new('d', 3, 8).render(), "3d⁸");
    assert_eq!(Subshell::new('d', 3, 9).render(), "3d⁹");
}

#[test]
fn configuration_text_of_resolved_elements() {
    let e = ChemicalElement::from_atomic_number(1).unwrap();
    assert_eq!(configuration_text(&e), "1S¹");
    let e = ChemicalElement::from_atomic_number(10).unwrap();
    assert_eq!(configuration_text(&e), "1S² 2S² 2P⁶");
    let e = ChemicalElement::from_atomic_number(26).unwrap();
    assert_eq!(configuration_text(&e), "1S² 2S² 2P⁶ 3S² 3P⁶ 4S² 3d⁶");
}

#[test]
fn fill_zero_emits_one_empty_subshell_and_stops() {
    let shells = fill_for(0);
    assert_eq!(shells.len(), 1);
    let s = shells.get(0);
    assert_eq!(s.kind(), 'S');
    assert_eq!(s.period(), 1);
    assert_eq!(s.value(), 0);
    assert_eq!(shells.render(), "1S⁰");
}

#[test]
fn fill_beyond_capacity_exhausts_the_order_and_undercounts() {
    // The order holds 118 electrons in all; a larger total walks every
    // entry, fills each one, and the excess is silently dropped.
    let shells = fill_for(255);
    assert_eq!(shells.len(), 19);
    let mut sum: u32 = 0;
    let mut i: usize = 0;
    while i < 19 {
        let s = shells.get(i);
        assert_eq!(s.value(), Subshell::get_value(s.kind()));
        sum += s.value() as u32;
        i += 1;
    }
    assert_eq!(sum, 118);
}
