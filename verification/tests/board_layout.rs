use dreambreaker::board::{
    board_grid, cell_at, cell_labels, group_hex, property_group, short_name, side_of,
    value_label, Side,
};
use dreambreaker::model::{BoardCell, Id};

fn cell(index: i32, kind: &str) -> BoardCell {
    BoardCell {
        cell_index: index,
        cell_type: kind.to_string(),
        tax_amount: None,
        prop_name: None,
        purchase_cost: None,
        rent_cost: None,
        owner_user_id: None,
        shop_id: None,
        refresh_cost: None,
    }
}

#[test]
fn corners_of_the_board() {
    assert_eq!(cell_at(10, 0), Some(0));
    assert_eq!(cell_at(10, 10), Some(10));
    assert_eq!(cell_at(0, 10), Some(20));
    assert_eq!(cell_at(0, 0), Some(30));
    assert_eq!(cell_at(5, 5), None);
    assert_eq!(cell_at(10, 9), Some(9));
    assert_eq!(cell_at(9, 0), Some(39));
}

#[test]
fn every_cell_once_on_the_rim() {
    let g = board_grid();
    let mut seen = vec![0; 40];
    for r in 0..11 {
        for c in 0..11 {
            if let Some(i) = g[r][c] {
                seen[i as usize] += 1;
                assert_eq!(cell_at(r, c), Some(i));
            }
        }
    }
    assert!(seen.iter().all(|&n| n == 1));
}

#[test]
fn sides_of_cells() {
    assert_eq!(side_of(0), Side::Bottom);
    assert_eq!(side_of(15), Side::Right);
    assert_eq!(side_of(29), Side::Top);
    assert_eq!(side_of(39), Side::Left);
    assert_eq!(side_of(-1), Side::Left);
}

#[test]
fn property_groups_and_colours() {
    assert_eq!(property_group(1), 0);
    assert_eq!(property_group(6), 1);
    assert_eq!(property_group(13), 2);
    assert_eq!(property_group(39), 7);
    assert_eq!(property_group(-3), 0);
    assert_eq!(group_hex(0), "#88ccff");
    assert_eq!(group_hex(7), "#8b4513");
    assert_eq!(group_hex(42), "#8b4513");
}

#[test]
fn labels_of_plain_cells() {
    let mut tax = cell(4, "tax");
    tax.tax_amount = Some(100);
    let mut prop = cell(6, "property");
    prop.prop_name = Some("Улица Набережная".to_string());
    prop.purchase_cost = Some(240);
    let cells = vec![tax, cell(7, "shop"), prop, cell(8, "empty")];
    assert_eq!(cell_labels(&cells, 0), ("СТАРТ".to_string(), String::new()));
    assert_eq!(cell_labels(&cells, 4), ("НАЛОГ".to_string(), "100+5%".to_string()));
    assert_eq!(cell_labels(&cells, 7), ("МАГ".to_string(), String::new()));
    assert_eq!(cell_labels(&cells, 6), ("Набереж".to_string(), "240".to_string()));
    assert_eq!(cell_labels(&cells, 8), (String::new(), String::new()));
    assert_eq!(cell_labels(&cells, 9), (String::new(), String::new()));
}

#[test]
fn last_listed_cell_names_the_label() {
    let cells = vec![cell(5, "tax"), cell(5, "shop")];
    assert_eq!(cell_labels(&cells, 5), ("МАГ".to_string(), String::new()));
}

#[test]
fn short_names_and_value_labels() {
    assert_eq!(short_name(&Some("Площадь Восстания".to_string())), "Восстания");
    assert_eq!(short_name(&None), "?");
    assert_eq!(short_name(&Some("   ".to_string())), "?");
    let mut c = cell(3, "property");
    c.purchase_cost = Some(150);
    c.rent_cost = Some(15);
    assert_eq!(value_label(&c), "150");
    c.owner_user_id = Some(Id(4));
    assert_eq!(value_label(&c), "А:15");
}
