//! Where every mark of an invoice stands on its page.
//!
//! Lengths are in tenths of a millimetre, measured from the bottom-left
//! corner of an A4 page; text sizes are in points. The content is a sequence
//! of items, each of which moves a cursor down by its `drop` before it is
//! drawn at the cursor; placing the items turns drops into heights.
use vstd::prelude::*;
use crate::invoice::{is_shown, shown, AddressData, BankData, ClientData, InvoiceData};
use crate::money::{format_rounded, format_signed_fixed2, rounded_text, signed_fixed2_text};

verus! {

pub const PAGE_WIDTH: u16 = 2100;
pub const PAGE_HEIGHT: u16 = 2970;
/// Left edge of the text, and distance of the first line from the top.
pub const MARGIN: u16 = 200;
/// Height of the cursor before the first item.
pub const TOP: u16 = 2770;
pub const QUANTITY_X: u16 = 1000;
pub const RATE_X: u16 = 1350;
pub const AMOUNT_X: u16 = 1700;
/// Right end of the table's rules.
pub const RIGHT_X: u16 = 1900;
/// Height of the footer, whatever stands above it.
pub const FOOTER_Y: u16 = 250;
/// Drop between two lines of one block.
pub const LINE_STEP: u16 = 50;
/// Drop before the heading of a new section.
pub const SECTION_STEP: u16 = 150;
/// Text size of the lines of an address block.
pub const BODY_SIZE: u16 = 11;

/// What is drawn: a line of text, or a horizontal rule from the item's `x`
/// to `to_x`.
#[derive(Debug)]
pub enum Mark {
    Text { text: String, size: u16, bold: bool },
    Rule { to_x: u16 },
}

pub enum MarkView {
    Text { text: Seq<char>, size: u16, bold: bool },
    Rule { to_x: u16 },
}

impl View for Mark {
    type V = MarkView;

    open spec fn view(&self) -> MarkView {
        match self {
            Mark::Text { text, size, bold } => MarkView::Text { text: text@, size: *size, bold: *bold },
            Mark::Rule { to_x } => MarkView::Rule { to_x: *to_x },
        }
    }
}

impl Mark {
    /// A copy of the mark.
    pub fn duplicate(&self) -> (r: Mark)
        ensures
            r@ == self@,
    {
        match self {
            Mark::Text { text, size, bold } => Mark::Text { text: text.clone(), size: *size, bold: *bold },
            Mark::Rule { to_x } => Mark::Rule { to_x: *to_x },
        }
    }
}

/// A mark in the flow of the page: the cursor drops by `drop`, then the mark
/// is drawn at `x` and the cursor's height.
#[derive(Debug)]
pub struct Item {
    pub mark: Mark,
    pub x: u16,
    pub drop: u16,
}

pub struct ItemView {
    pub mark: MarkView,
    pub x: u16,
    pub drop: u16,
}

impl View for Item {
    type V = ItemView;

    open spec fn view(&self) -> ItemView {
        ItemView { mark: self.mark@, x: self.x, drop: self.drop }
    }
}

/// A mark at its place on the page. Content that runs past the bottom edge
/// has a negative `y`.
#[derive(Debug)]
pub struct Placed {
    pub mark: Mark,
    pub x: u16,
    pub y: i64,
}

pub struct PlacedView {
    pub mark: MarkView,
    pub x: u16,
    pub y: int,
}

impl View for Placed {
    type V = PlacedView;

    open spec fn view(&self) -> PlacedView {
        PlacedView { mark: self.mark@, x: self.x, y: self.y as int }
    }
}

pub open spec fn item_views(s: Seq<Item>) -> Seq<ItemView> {
    s.map_values(|i: Item| i@)
}

pub open spec fn placed_views(s: Seq<Placed>) -> Seq<PlacedView> {
    s.map_values(|p: Placed| p@)
}

/// The sum of the drops of the first `n` items.
pub open spec fn drop_sum(s: Seq<ItemView>, n: int) -> int
    decreases n,
{
    if n <= 0 { 0 } else { drop_sum(s, n - 1) + s[n - 1].drop }
}

/// Each item at the cursor's height after its own drop.
pub open spec fn place(s: Seq<ItemView>) -> Seq<PlacedView> {
    Seq::new(s.len(), |i: int| PlacedView { mark: s[i].mark, x: s[i].x, y: TOP - drop_sum(s, i + 1) })
}

pub open spec fn text_item(text: Seq<char>, x: u16, drop: u16, size: u16, bold: bool) -> ItemView {
    ItemView { mark: MarkView::Text { text, size, bold }, x, drop }
}

pub open spec fn rule_item(x: u16, to_x: u16, drop: u16) -> ItemView {
    ItemView { mark: MarkView::Rule { to_x }, x, drop }
}

/// A line of an address block.
pub open spec fn body_line(text: Seq<char>, drop: u16) -> ItemView {
    text_item(text, MARGIN, drop, BODY_SIZE, false)
}

/// The line of an optional field: one where it is shown, none otherwise.
pub open spec fn optional_line(o: Option<String>) -> Seq<ItemView> {
    if shown(o) { seq![body_line(o->0@, LINE_STEP)] } else { seq![] }
}

pub open spec fn heading_items(inv: InvoiceData) -> Seq<ItemView> {
    seq![
        text_item("INVOICE"@, MARGIN, 0, 24, true),
        text_item("Invoice #: "@ + inv.invoice_number@, MARGIN, 100, 12, false),
        text_item("Date: "@ + inv.invoice_date@, MARGIN, 60, 12, false),
    ]
}

/// `{city}, {state} - {zip}`.
pub open spec fn city_line_text(a: AddressData) -> Seq<char> {
    a.beneficiary_address_city@ + ", "@ + a.beneficiary_address_state@ + " - "@
        + a.beneficiary_address_zip@
}

pub open spec fn from_items(inv: InvoiceData) -> Seq<ItemView> {
    seq![
        text_item("FROM:"@, MARGIN, SECTION_STEP, 12, true),
        body_line(inv.bank_data.beneficiary_account_name@, 60),
        body_line(inv.address_data.beneficiary_address_line1@, LINE_STEP),
    ] + optional_line(inv.address_data.beneficiary_address_line2) + seq![
        body_line(city_line_text(inv.address_data), LINE_STEP),
    ]
}

pub open spec fn bill_to_items(c: ClientData) -> Seq<ItemView> {
    seq![
        text_item("BILL TO:"@, MARGIN, SECTION_STEP, 12, true),
        body_line(c.name@, 60),
        body_line(c.address_line1@, LINE_STEP),
    ] + optional_line(c.address_line2) + optional_line(c.email)
}

/// Hours as the line item shows them: `{hours:.2} hrs`.
pub open spec fn hours_text(hundredths: int) -> Seq<char> {
    signed_fixed2_text(hundredths) + " hrs"@
}

/// The rate as the line item shows it: `${rate:.2}/hr`.
pub open spec fn rate_text(hundredths: int) -> Seq<char> {
    "$"@ + signed_fixed2_text(hundredths) + "/hr"@
}

/// An amount of money held in ten-thousandths, as shown: `${amount:.2}`.
pub open spec fn amount_text(ten_thousandths: int) -> Seq<char> {
    "$"@ + rounded_text(ten_thousandths)
}

/// The column headers, the rule under them, the line item, the rule above
/// the total, and the total.
pub open spec fn table_items(inv: InvoiceData) -> Seq<ItemView> {
    let amount = amount_text(inv.total_spec());
    seq![
        text_item("DESCRIPTION"@, MARGIN, SECTION_STEP, BODY_SIZE, true),
        text_item("QUANTITY"@, QUANTITY_X, 0, BODY_SIZE, true),
        text_item("RATE"@, RATE_X, 0, BODY_SIZE, true),
        text_item("AMOUNT"@, AMOUNT_X, 0, BODY_SIZE, true),
        rule_item(MARGIN, RIGHT_X, 20),
        body_line(inv.service_description@, 60),
        text_item(hours_text(inv.hours_worked as int), QUANTITY_X, 0, BODY_SIZE, false),
        text_item(rate_text(inv.hourly_rate as int), RATE_X, 0, BODY_SIZE, false),
        text_item(amount, AMOUNT_X, 0, BODY_SIZE, false),
        rule_item(RATE_X, RIGHT_X, 80),
        text_item("TOTAL:"@, RATE_X, 60, 12, true),
        text_item(amount, AMOUNT_X, 0, 12, true),
    ]
}

pub open spec fn bank_line(label: Seq<char>, value: String, drop: u16) -> ItemView {
    text_item(label + value@, MARGIN, drop, 10, false)
}

/// The payment heading and the seven labelled bank lines, always all of them.
pub open spec fn payment_items(b: BankData) -> Seq<ItemView> {
    seq![
        text_item("PAYMENT INFORMATION"@, MARGIN, SECTION_STEP, 12, true),
        bank_line("Beneficiary/Account Name: "@, b.beneficiary_account_name, 60),
        bank_line("Bank Name: "@, b.bank_name, LINE_STEP),
        bank_line("Bank Address: "@, b.bank_address, LINE_STEP),
        bank_line("Account Type: "@, b.account_type, LINE_STEP),
        bank_line("Account Number: "@, b.account_number, LINE_STEP),
        bank_line("Wire Routing: "@, b.wire_routing, LINE_STEP),
        bank_line("SWIFT Code: "@, b.swift_code, LINE_STEP),
    ]
}

/// The notes heading and the notes, where notes are shown.
pub open spec fn notes_items(notes: Option<String>) -> Seq<ItemView> {
    if shown(notes) {
        seq![
            text_item("NOTES:"@, MARGIN, 100, BODY_SIZE, true),
            text_item(notes->0@, MARGIN, 60, 10, false),
        ]
    } else {
        seq![]
    }
}

/// The flow of an invoice, top to bottom.
pub open spec fn invoice_items(inv: InvoiceData) -> Seq<ItemView> {
    heading_items(inv) + from_items(inv) + bill_to_items(inv.client) + table_items(inv)
        + payment_items(inv.bank_data) + notes_items(inv.notes)
}

pub open spec fn footer_mark() -> PlacedView {
    PlacedView {
        mark: MarkView::Text { text: footer_text(), size: 10, bold: false },
        x: MARGIN,
        y: FOOTER_Y as int,
    }
}

/// Every mark of an invoice's page: the placed flow, then the footer.
pub open spec fn page_marks(inv: InvoiceData) -> Seq<PlacedView> {
    place(invoice_items(inv)).push(footer_mark())
}

fn push_text(v: &mut Vec<Item>, text: String, x: u16, drop: u16, size: u16, bold: bool)
    ensures
        item_views(final(v)@) == item_views(old(v)@).push(text_item(text@, x, drop, size, bold)),
{
    let ghost t = text@;
    v.push(Item { mark: Mark::Text { text, size, bold }, x, drop });
    assert(item_views(v@) =~= item_views(old(v)@).push(text_item(t, x, drop, size, bold)));
}

fn push_rule(v: &mut Vec<Item>, x: u16, to_x: u16, drop: u16)
    ensures
        item_views(final(v)@) == item_views(old(v)@).push(rule_item(x, to_x, drop)),
{
    v.push(Item { mark: Mark::Rule { to_x }, x, drop });
    assert(item_views(v@) =~= item_views(old(v)@).push(rule_item(x, to_x, drop)));
}

fn joined(a: &str, b: &str) -> (r: String)
    ensures
        r@ == a@ + b@,
{
    let mut s = String::from_str(a);
    s.append(b);
    s
}

fn push_optional(v: &mut Vec<Item>, o: &Option<String>)
    ensures
        item_views(final(v)@) == item_views(old(v)@) + optional_line(*o),
{
    if is_shown(o) {
        match o {
            Some(s) => push_text(v, s.clone(), MARGIN, LINE_STEP, BODY_SIZE, false),
            None => {},
        }
    }
    assert(item_views(v@) =~= item_views(old(v)@) + optional_line(*o));
}

fn push_heading(inv: &InvoiceData, v: &mut Vec<Item>)
    ensures
        item_views(final(v)@) == item_views(old(v)@) + heading_items(*inv),
{
    push_text(v, String::from_str("INVOICE"), MARGIN, 0, 24, true);
    push_text(v, joined("Invoice #: ", inv.invoice_number.as_str()), MARGIN, 100, 12, false);
    push_text(v, joined("Date: ", inv.invoice_date.as_str()), MARGIN, 60, 12, false);
    assert(item_views(v@) =~= item_views(old(v)@) + heading_items(*inv));
}

fn city_line(a: &AddressData) -> (r: String)
    ensures
        r@ == city_line_text(*a),
{
    let mut s = a.beneficiary_address_city.clone();
    s.append(", ");
    s.append(a.beneficiary_address_state.as_str());
    s.append(" - ");
    s.append(a.beneficiary_address_zip.as_str());
    s
}

fn push_from(inv: &InvoiceData, v: &mut Vec<Item>)
    ensures
        item_views(final(v)@) == item_views(old(v)@) + from_items(*inv),
{
    push_text(v, String::from_str("FROM:"), MARGIN, SECTION_STEP, 12, true);
    push_text(v, inv.bank_data.beneficiary_account_name.clone(), MARGIN, 60, BODY_SIZE, false);
    push_text(
        v,
        inv.address_data.beneficiary_address_line1.clone(),
        MARGIN,
        LINE_STEP,
        BODY_SIZE,
        false,
    );
    push_optional(v, &inv.address_data.beneficiary_address_line2);
    push_text(v, city_line(&inv.address_data), MARGIN, LINE_STEP, BODY_SIZE, false);
    assert(item_views(v@) =~= item_views(old(v)@) + from_items(*inv));
}

fn push_bill_to(c: &ClientData, v: &mut Vec<Item>)
    ensures
        item_views(final(v)@) == item_views(old(v)@) + bill_to_items(*c),
{
    push_text(v, String::from_str("BILL TO:"), MARGIN, SECTION_STEP, 12, true);
    push_text(v, c.name.clone(), MARGIN, 60, BODY_SIZE, false);
    push_text(v, c.address_line1.clone(), MARGIN, LINE_STEP, BODY_SIZE, false);
    push_optional(v, &c.address_line2);
    push_optional(v, &c.email);
    assert(item_views(v@) =~= item_views(old(v)@) + bill_to_items(*c));
}

/// `{hours:.2} hrs`, hours in hundredths.
pub fn format_hours(hundredths: i64) -> (r: String)
    ensures
        r@ == hours_text(hundredths as int),
{
    let mut s = format_signed_fixed2(hundredths);
    s.append(" hrs");
    s
}

/// `${rate:.2}/hr`, the rate in hundredths.
pub fn format_rate(hundredths: i64) -> (r: String)
    ensures
        r@ == rate_text(hundredths as int),
{
    let mut s = String::from_str("$");
    s.append(format_signed_fixed2(hundredths).as_str());
    s.append("/hr");
    s
}

/// `${amount:.2}`, the amount in ten-thousandths.
pub fn format_amount(ten_thousandths: i128) -> (r: String)
    requires
        ten_thousandths > i128::MIN,
    ensures
        r@ == amount_text(ten_thousandths as int),
{
    let mut s = String::from_str("$");
    s.append(format_rounded(ten_thousandths).as_str());
    s
}

fn push_table(inv: &InvoiceData, v: &mut Vec<Item>)
    ensures
        item_views(final(v)@) == item_views(old(v)@) + table_items(*inv),
{
    push_text(v, String::from_str("DESCRIPTION"), MARGIN, SECTION_STEP, BODY_SIZE, true);
    push_text(v, String::from_str("QUANTITY"), QUANTITY_X, 0, BODY_SIZE, true);
    push_text(v, String::from_str("RATE"), RATE_X, 0, BODY_SIZE, true);
    push_text(v, String::from_str("AMOUNT"), AMOUNT_X, 0, BODY_SIZE, true);
    push_rule(v, MARGIN, RIGHT_X, 20);
    push_text(v, inv.service_description.clone(), MARGIN, 60, BODY_SIZE, false);
    push_text(v, format_hours(inv.hours_worked), QUANTITY_X, 0, BODY_SIZE, false);
    push_text(v, format_rate(inv.hourly_rate), RATE_X, 0, BODY_SIZE, false);
    let amount = format_amount(inv.calculate_total());
    push_text(v, amount.clone(), AMOUNT_X, 0, BODY_SIZE, false);
    push_rule(v, RATE_X, RIGHT_X, 80);
    push_text(v, String::from_str("TOTAL:"), RATE_X, 60, 12, true);
    push_text(v, amount, AMOUNT_X, 0, 12, true);
    assert(item_views(v@) =~= item_views(old(v)@) + table_items(*inv));
}

fn push_bank_line(v: &mut Vec<Item>, label: &str, value: &String, drop: u16)
    ensures
        item_views(final(v)@) == item_views(old(v)@).push(bank_line(label@, *value, drop)),
{
    push_text(v, joined(label, value.as_str()), MARGIN, drop, 10, false);
}

fn push_payment(b: &BankData, v: &mut Vec<Item>)
    ensures
        item_views(final(v)@) == item_views(old(v)@) + payment_items(*b),
{
    push_text(v, String::from_str("PAYMENT INFORMATION"), MARGIN, SECTION_STEP, 12, true);
    push_bank_line(v, "Beneficiary/Account Name: ", &b.beneficiary_account_name, 60);
    push_bank_line(v, "Bank Name: ", &b.bank_name, LINE_STEP);
    push_bank_line(v, "Bank Address: ", &b.bank_address, LINE_STEP);
    push_bank_line(v, "Account Type: ", &b.account_type, LINE_STEP);
    push_bank_line(v, "Account Number: ", &b.account_number, LINE_STEP);
    push_bank_line(v, "Wire Routing: ", &b.wire_routing, LINE_STEP);
    push_bank_line(v, "SWIFT Code: ", &b.swift_code, LINE_STEP);
    assert(item_views(v@) =~= item_views(old(v)@) + payment_items(*b));
}

fn push_notes(notes: &Option<String>, v: &mut Vec<Item>)
    ensures
        item_views(final(v)@) == item_views(old(v)@) + notes_items(*notes),
{
    if is_shown(notes) {
        match notes {
            Some(n) => {
                push_text(v, String::from_str("NOTES:"), MARGIN, 100, BODY_SIZE, true);
                push_text(v, n.clone(), MARGIN, 60, 10, false);
            },
            None => {},
        }
    }
    assert(item_views(v@) =~= item_views(old(v)@) + notes_items(*notes));
}

/// The flow of an invoice, top to bottom, before placing.
pub fn build_invoice_items(inv: &InvoiceData) -> (r: Vec<Item>)
    ensures
        item_views(r@) == invoice_items(*inv),
{
    let mut v: Vec<Item> = Vec::new();
    assert(item_views(v@) =~= Seq::<ItemView>::empty());
    push_heading(inv, &mut v);
    push_from(inv, &mut v);
    push_bill_to(&inv.client, &mut v);
    push_table(inv, &mut v);
    push_payment(&inv.bank_data, &mut v);
    push_notes(&inv.notes, &mut v);
    assert(item_views(v@) =~= invoice_items(*inv));
    v
}

proof fn lemma_drop_sum_bounds(s: Seq<ItemView>, n: int)
    requires
        0 <= n <= s.len(),
    ensures
        0 <= drop_sum(s, n) <= n * 0xffff,
    decreases n,
{
    if n > 0 {
        lemma_drop_sum_bounds(s, n - 1);
    }
}

/// Places each item at the cursor's height after its own drop; the cursor
/// starts at `TOP`.
pub fn place_items(items: &Vec<Item>) -> (r: Vec<Placed>)
    requires
        items@.len() <= u32::MAX,
    ensures
        placed_views(r@) == place(item_views(items@)),
{
    let ghost s = item_views(items@);
    let mut r: Vec<Placed> = Vec::new();
    let mut y: i64 = TOP as i64;
    let mut i: usize = 0;
    while i < items.len()
        invariant
            s == item_views(items@),
            items@.len() <= u32::MAX,
            0 <= i <= items@.len(),
            y == TOP - drop_sum(s, i as int),
            r@.len() == i,
            s.len() == items@.len(),
            placed_views(r@) == place(s).take(i as int),
        decreases items@.len() - i,
    {
        proof {
            lemma_drop_sum_bounds(s, i as int + 1);
            assert((i as int + 1) * 0xffff <= 0x1_0000_0000 * 0xffff) by (nonlinear_arith)
                requires
                    i as int + 1 <= 0x1_0000_0000,
            ;
        }
        let it = &items[i];
        assert(s[i as int] == it@);
        assert(drop_sum(s, i as int + 1) == drop_sum(s, i as int) + s[i as int].drop);
        y = y - it.drop as i64;
        r.push(Placed { mark: it.mark.duplicate(), x: it.x, y });
        assert(r@[i as int]@ == place(s)[i as int]);
        i = i + 1;
        assert(placed_views(r@) =~= place(s).take(i as int));
    }
    assert(place(s).take(i as int) =~= place(s));
    r
}

pub open spec fn footer_text() -> Seq<char> {
    "Thank you for your business!"@
}

/// Every mark of the invoice's page, in drawing order: the flow placed from
/// the top, then the footer at its fixed height.
pub fn layout_invoice(inv: &InvoiceData) -> (r: Vec<Placed>)
    ensures
        placed_views(r@) == page_marks(*inv),
{
    let items = build_invoice_items(inv);
    let mut r = place_items(&items);
    r.push(
        Placed {
            mark: Mark::Text { text: String::from_str("Thank you for your business!"), size: 10, bold: false },
            x: MARGIN,
            y: FOOTER_Y as i64,
        },
    );
    assert(placed_views(r@) =~= page_marks(*inv));
    r
}

} // verus!
