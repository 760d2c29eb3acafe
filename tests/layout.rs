use invoice_render::invoice::{is_shown, AddressData, BankData, ClientData, InvoiceData};
use invoice_render::layout::{
    build_invoice_items, format_amount, format_hours, format_rate, layout_invoice, place_items,
    Item, Mark, Placed, FOOTER_Y, MARGIN, TOP,
};
use invoice_render::money::{
    format_decimal, format_fixed2, format_rounded, format_signed_fixed2, product_ten_thousandths,
    round_hundredths,
};

fn bank() -> BankData {
    BankData {
        beneficiary_account_name: "Jane Doe".to_string(),
        bank_name: "First Bank".to_string(),
        bank_address: "1 Main St".to_string(),
        account_type: "Checking".to_string(),
        account_number: "123456".to_string(),
        wire_routing: "021000021".to_string(),
        swift_code: "FBNKUS33".to_string(),
    }
}

fn minimal(rate: i64, hours: i64) -> InvoiceData {
    InvoiceData {
        client: ClientData {
            name: "Acme Corp".to_string(),
            address_line1: "5 Market Rd".to_string(),
            address_line2: None,
            email: None,
        },
        bank_data: bank(),
        address_data: AddressData {
            beneficiary_address_line1: "9 Elm St".to_string(),
            beneficiary_address_line2: None,
            beneficiary_address_state: "CA".to_string(),
            beneficiary_address_city: "Springfield".to_string(),
            beneficiary_address_zip: "90001".to_string(),
        },
        service_description: "Consulting".to_string(),
        hourly_rate: rate,
        hours_worked: hours,
        invoice_number: "INV-001".to_string(),
        notes: None,
        invoice_date: "2024-01-31".to_string(),
    }
}

fn texts(marks: &[Placed]) -> Vec<String> {
    marks
        .iter()
        .filter_map(|p| match &p.mark {
            Mark::Text { text, .. } => Some(text.clone()),
            Mark::Rule { .. } => None,
        })
        .collect()
}

fn find<'a>(marks: &'a [Placed], text: &str) -> Vec<&'a Placed> {
    marks
        .iter()
        .filter(|p| matches!(&p.mark, Mark::Text { text: t, .. } if t == text))
        .collect()
}

#[test]
fn minimal_record_totals_five_hundred() {
    let marks = layout_invoice(&minimal(5000, 1000));
    let amounts = find(&marks, "$500.00");
    assert_eq!(amounts.len(), 2);
    assert!(amounts.iter().all(|p| p.x == 1700));
    assert!(find(&marks, "NOTES:").is_empty());
    assert_eq!(marks.len(), 31);
}

#[test]
fn notes_and_fractional_hours() {
    let mut inv = minimal(12000, 325);
    inv.notes = Some("Paid via wire on 2024-01-15".to_string());
    let marks = layout_invoice(&inv);
    assert_eq!(find(&marks, "3.25 hrs").len(), 1);
    assert_eq!(find(&marks, "$120.00/hr").len(), 1);
    assert_eq!(find(&marks, "$390.00").len(), 2);
    let heading = find(&marks, "NOTES:");
    assert_eq!(heading.len(), 1);
    let body = find(&marks, "Paid via wire on 2024-01-15");
    assert_eq!(body.len(), 1);
    assert_eq!(body[0].y, heading[0].y - 60);
}

#[test]
fn total_row_is_bold_and_matches_line_item() {
    let marks = layout_invoice(&minimal(7525, 150));
    let amounts = find(&marks, "$112.88");
    assert_eq!(amounts.len(), 2);
    match (&amounts[0].mark, &amounts[1].mark) {
        (Mark::Text { size: s0, bold: b0, .. }, Mark::Text { size: s1, bold: b1, .. }) => {
            assert_eq!((*s0, *b0), (11, false));
            assert_eq!((*s1, *b1), (12, true));
        }
        _ => panic!("amounts are text"),
    }
    assert_eq!(amounts[1].y, amounts[0].y - 140);
}

#[test]
fn heading_positions() {
    let marks = layout_invoice(&minimal(100, 100));
    assert_eq!(texts(&marks[..3]), vec!["INVOICE", "Invoice #: INV-001", "Date: 2024-01-31"]);
    assert_eq!(marks[0].y, TOP as i64);
    assert_eq!(marks[1].y, 2670);
    assert_eq!(marks[2].y, 2610);
    assert_eq!(marks[3].y, 2460);
    assert!(marks[..3].iter().all(|p| p.x == MARGIN));
    let last = marks.last().unwrap();
    assert_eq!(last.y, FOOTER_Y as i64);
    assert_eq!(texts(&marks[marks.len() - 1..]), vec!["Thank you for your business!"]);
}

#[test]
fn from_block_with_and_without_second_line() {
    let mut inv = minimal(100, 100);
    let without = layout_invoice(&inv);
    inv.address_data.beneficiary_address_line2 = Some("Suite 4".to_string());
    let with = layout_invoice(&inv);
    assert_eq!(with.len(), without.len() + 1);
    assert_eq!(texts(&with[3..8]), vec!["FROM:", "Jane Doe", "9 Elm St", "Suite 4", "Springfield, CA - 90001"]);
    assert_eq!(texts(&without[3..7]), vec!["FROM:", "Jane Doe", "9 Elm St", "Springfield, CA - 90001"]);
    assert_eq!(with[7].y, without[6].y - 50);
    assert_eq!(with[with.len() - 2].y, without[without.len() - 2].y - 50);
}

#[test]
fn empty_optional_fields_are_skipped() {
    let base = layout_invoice(&minimal(100, 100));
    let mut inv = minimal(100, 100);
    inv.client.address_line2 = Some(String::new());
    inv.client.email = Some(String::new());
    inv.address_data.beneficiary_address_line2 = Some(String::new());
    inv.notes = Some(String::new());
    let marks = layout_invoice(&inv);
    assert_eq!(texts(&marks), texts(&base));
    assert_eq!(marks.iter().map(|p| p.y).collect::<Vec<_>>(), base.iter().map(|p| p.y).collect::<Vec<_>>());
}

#[test]
fn client_optional_lines_each_add_one() {
    let base = build_invoice_items(&minimal(100, 100)).len();
    let mut inv = minimal(100, 100);
    inv.client.email = Some("billing@acme.test".to_string());
    assert_eq!(build_invoice_items(&inv).len(), base + 1);
    inv.client.address_line2 = Some("Floor 2".to_string());
    let marks = layout_invoice(&inv);
    assert_eq!(marks.len(), base + 3);
    assert_eq!(
        texts(&marks[7..12]),
        vec!["BILL TO:", "Acme Corp", "5 Market Rd", "Floor 2", "billing@acme.test"]
    );
    assert_eq!(marks[12].y, marks[11].y - 150);
}

#[test]
fn bank_lines_always_seven_even_when_empty() {
    let mut inv = minimal(100, 100);
    inv.bank_data = BankData {
        beneficiary_account_name: String::new(),
        bank_name: String::new(),
        bank_address: String::new(),
        account_type: String::new(),
        account_number: String::new(),
        wire_routing: String::new(),
        swift_code: String::new(),
    };
    let marks = layout_invoice(&inv);
    let t = texts(&marks);
    let p = t.iter().position(|s| s == "PAYMENT INFORMATION").unwrap();
    assert_eq!(
        t[p + 1..p + 8].to_vec(),
        vec![
            "Beneficiary/Account Name: ",
            "Bank Name: ",
            "Bank Address: ",
            "Account Type: ",
            "Account Number: ",
            "Wire Routing: ",
            "SWIFT Code: ",
        ]
    );
    assert_eq!(t[p + 8], "Thank you for your business!");
}

#[test]
fn bank_lines_in_label_order() {
    let marks = layout_invoice(&minimal(100, 100));
    let t = texts(&marks);
    let p = t.iter().position(|s| s == "PAYMENT INFORMATION").unwrap();
    assert_eq!(t[p + 1], "Beneficiary/Account Name: Jane Doe");
    assert_eq!(t[p + 7], "SWIFT Code: FBNKUS33");
}

#[test]
fn table_rules() {
    let marks = layout_invoice(&minimal(100, 100));
    let rules: Vec<(u16, u16, i64)> = marks
        .iter()
        .filter_map(|p| match p.mark {
            Mark::Rule { to_x } => Some((p.x, to_x, p.y)),
            _ => None,
        })
        .collect();
    let header = find(&marks, "DESCRIPTION")[0].y;
    assert_eq!(rules, vec![(200, 1900, header - 20), (1350, 1900, header - 20 - 60 - 80)]);
}

#[test]
fn place_items_accumulates_drops() {
    let items = vec![
        Item { mark: Mark::Rule { to_x: 10 }, x: 1, drop: 5 },
        Item { mark: Mark::Rule { to_x: 20 }, x: 2, drop: 0 },
        Item { mark: Mark::Rule { to_x: 30 }, x: 3, drop: 3000 },
    ];
    let placed = place_items(&items);
    let ys: Vec<i64> = placed.iter().map(|p| p.y).collect();
    assert_eq!(ys, vec![2765, 2765, -235]);
    assert!(place_items(&Vec::new()).is_empty());
}

#[test]
fn negative_values_render_as_given() {
    let marks = layout_invoice(&minimal(-5000, 200));
    assert_eq!(find(&marks, "$-100.00").len(), 2);
    assert_eq!(find(&marks, "$-50.00/hr").len(), 1);
    assert_eq!(find(&marks, "2.00 hrs").len(), 1);
}

#[test]
fn money_formatting() {
    assert_eq!(format_decimal(0), "0");
    assert_eq!(format_decimal(1234567890123), "1234567890123");
    assert_eq!(format_fixed2(5), "0.05");
    assert_eq!(format_fixed2(1234), "12.34");
    assert_eq!(format_fixed2(100), "1.00");
    assert_eq!(format_signed_fixed2(-7), "-0.07");
    assert_eq!(format_signed_fixed2(i64::MIN), "-92233720368547758.08");
    assert_eq!(format_hours(325), "3.25 hrs");
    assert_eq!(format_rate(12000), "$120.00/hr");
    assert_eq!(format_amount(3_900_000), "$390.00");
    assert_eq!(format_rounded(-40), "-0.00");
    assert_eq!(format_rounded(0), "0.00");
}

#[test]
fn rounding_ties_to_even() {
    assert_eq!(round_hundredths(12350), 124);
    assert_eq!(round_hundredths(12250), 122);
    assert_eq!(round_hundredths(12251), 123);
    assert_eq!(round_hundredths(12249), 122);
    assert_eq!(round_hundredths(0), 0);
}

#[test]
fn totals_are_exact_products() {
    assert_eq!(product_ten_thousandths(5000, 1000), 5_000_000);
    assert_eq!(product_ten_thousandths(i64::MIN, i64::MIN), 1i128 << 126);
    assert_eq!(product_ten_thousandths(-3, 7), -21);
    assert_eq!(minimal(12000, 325).calculate_total(), 3_900_000);
}

#[test]
fn shown_means_present_and_not_empty() {
    assert!(is_shown(&Some("x".to_string())));
    assert!(!is_shown(&Some(String::new())));
    assert!(!is_shown(&None));
}
