//! Moving pieces within a collection.

use lied::id::Uuid;
use lied::reorder::{apply_move, arrow_value};

fn ids(n: usize) -> Vec<Uuid> {
    (0..n).map(|_| Uuid::now_v7()).collect()
}

#[test]
fn a_move_swaps_the_named_item_with_its_neighbour() {
    let order = ids(3);
    let mut moved = order.clone();
    assert!(apply_move(&mut moved, &format!("down:{}", order[0].text())));
    assert_eq!(moved, vec![order[1], order[0], order[2]]);

    let mut moved = order.clone();
    assert!(apply_move(&mut moved, &format!("up:{}", order[2].text())));
    assert_eq!(moved, vec![order[0], order[2], order[1]]);
}

#[test]
fn an_impossible_or_malformed_move_leaves_the_order_untouched() {
    let order = ids(2);
    for directive in [
        // Off either end: the page hides these arrows, but a crafted POST
        // must not be able to ask for them.
        format!("up:{}", order[0].text()),
        format!("down:{}", order[1].text()),
        // An id that isn't in the submitted order at all.
        format!("up:{}", Uuid::now_v7().text()),
        // Malformed directives.
        format!("sideways:{}", order[0].text()),
        "up:not-a-uuid".to_string(),
        "nonsense".to_string(),
        String::new(),
    ] {
        let mut candidate = order.clone();
        assert!(
            !apply_move(&mut candidate, &directive),
            "{directive:?} must be refused"
        );
        assert_eq!(candidate, order, "{directive:?} must not reorder anything");
    }
}

#[test]
fn a_move_and_its_opposite_cancel() {
    let order = ids(4);
    for i in 0..3 {
        let mut moved = order.clone();
        assert!(apply_move(&mut moved, &arrow_value(false, order[i])));
        assert_ne!(moved, order);
        assert!(apply_move(&mut moved, &arrow_value(true, order[i])));
        assert_eq!(moved, order);
    }
}

#[test]
fn arrows_name_the_direction_and_the_piece() {
    let id = Uuid { bits: 0x10 };
    assert_eq!(
        arrow_value(true, id),
        "up:00000000-0000-0000-0000-000000000010"
    );
    assert_eq!(
        arrow_value(false, id),
        "down:00000000-0000-0000-0000-000000000010"
    );
}

#[test]
fn a_moved_list_holds_the_same_pieces() {
    let order = ids(5);
    let mut moved = order.clone();
    apply_move(&mut moved, &arrow_value(true, order[3]));
    for id in &order {
        assert_eq!(moved.iter().filter(|m| *m == id).count(), 1);
    }
}
