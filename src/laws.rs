//! Properties of the invoice layout that relate several values or calls.
use vstd::prelude::*;
use crate::invoice::{shown, AddressData, BankData, ClientData, InvoiceData};
use crate::layout::{
    bill_to_items, body_line, city_line_text, drop_sum, from_items, heading_items, invoice_items,
    notes_items, optional_line, page_marks, payment_items, table_items, text_item, ItemView,
    MarkView, AMOUNT_X, BODY_SIZE, LINE_STEP, MARGIN,
};
use crate::money::{fixed2_text, round_to_hundredths, rounded_text};

verus! {

/// The sum of all drops of a flow: how far the cursor travels.
pub open spec fn total_drop(s: Seq<ItemView>) -> int {
    drop_sum(s, s.len() as int)
}

/// Index of the first item of the table in an invoice's flow.
pub open spec fn table_start(inv: InvoiceData) -> int {
    (heading_items(inv).len() + from_items(inv).len() + bill_to_items(inv.client).len()) as int
}

/// Index of the payment heading in an invoice's flow.
pub open spec fn payment_start(inv: InvoiceData) -> int {
    table_start(inv) + table_items(inv).len()
}

proof fn lemma_drop_sum_agree(s: Seq<ItemView>, t: Seq<ItemView>, n: int)
    requires
        0 <= n <= s.len(),
        n <= t.len(),
        forall|i: int| 0 <= i < n ==> s[i] == t[i],
    ensures
        drop_sum(s, n) == drop_sum(t, n),
    decreases n,
{
    if n > 0 {
        lemma_drop_sum_agree(s, t, n - 1);
    }
}

proof fn lemma_drop_sum_concat(a: Seq<ItemView>, b: Seq<ItemView>, n: int)
    requires
        0 <= n <= b.len(),
    ensures
        drop_sum(a + b, a.len() + n) == total_drop(a) + drop_sum(b, n),
    decreases n,
{
    if n > 0 {
        lemma_drop_sum_concat(a, b, n - 1);
        assert((a + b)[a.len() + n - 1] == b[n - 1]);
    } else {
        lemma_drop_sum_agree(a + b, a, a.len() as int);
    }
}

proof fn lemma_total_drop_concat(a: Seq<ItemView>, b: Seq<ItemView>)
    ensures
        total_drop(a + b) == total_drop(a) + total_drop(b),
{
    lemma_drop_sum_concat(a, b, b.len() as int);
}

/// Taking one item out of the middle of a flow shortens it by one, keeps
/// everything else in order, and shortens the cursor's travel by that item's
/// drop.
proof fn lemma_remove_middle(a: Seq<ItemView>, x: ItemView, b: Seq<ItemView>)
    ensures
        (a + seq![x] + b).remove(a.len() as int) == a + b,
        total_drop(a + seq![x] + b) == total_drop(a + b) + x.drop,
{
    assert((a + seq![x] + b).remove(a.len() as int) =~= a + b);
    lemma_total_drop_concat(a + seq![x], b);
    lemma_total_drop_concat(a, seq![x]);
    lemma_total_drop_concat(a, b);
    assert(total_drop(seq![x]) == x.drop) by {
        reveal_with_fuel(drop_sum, 2);
    }
}

/// The total an invoice shows is rate times hours, rounded to hundredths and
/// written with two decimal places; for a rate and hours that are not
/// negative it is `$` and the digits. It stands twice on the page, under the
/// amount column: in the line item and in the total row.
pub proof fn law_total_shown_twice(inv: InvoiceData)
    ensures
        ({
            let product = inv.hourly_rate as int * inv.hours_worked as int;
            let text = "$"@ + rounded_text(product);
            let marks = page_marks(inv);
            let k = table_start(inv);
            &&& inv.hourly_rate >= 0 && inv.hours_worked >= 0 ==> text == "$"@ + fixed2_text(
                round_to_hundredths(product as nat),
            )
            &&& marks[k + 8].mark == (MarkView::Text { text, size: BODY_SIZE, bold: false })
            &&& marks[k + 8].x == AMOUNT_X
            &&& marks[k + 11].mark == (MarkView::Text { text, size: 12, bold: true })
            &&& marks[k + 11].x == AMOUNT_X
        }),
{
    let s = invoice_items(inv);
    let k = table_start(inv);
    assert(s[k + 8] == table_items(inv)[8]);
    assert(s[k + 11] == table_items(inv)[11]);
    let x = inv.hourly_rate as int;
    let y = inv.hours_worked as int;
    if x >= 0 && y >= 0 {
        assert(x * y >= 0) by (nonlinear_arith)
            requires
                x >= 0,
                y >= 0,
        ;
    }
}

/// The invoice with the client's second address line set to `o`.
pub open spec fn with_client_line2(inv: InvoiceData, o: Option<String>) -> InvoiceData {
    InvoiceData { client: ClientData { address_line2: o, ..inv.client }, ..inv }
}

/// The invoice with the client's email set to `o`.
pub open spec fn with_client_email(inv: InvoiceData, o: Option<String>) -> InvoiceData {
    InvoiceData { client: ClientData { email: o, ..inv.client }, ..inv }
}

/// The invoice with the beneficiary's second address line set to `o`.
pub open spec fn with_beneficiary_line2(inv: InvoiceData, o: Option<String>) -> InvoiceData {
    InvoiceData {
        address_data: AddressData { beneficiary_address_line2: o, ..inv.address_data },
        ..inv
    }
}

/// The invoice with its notes set to `o`.
pub open spec fn with_notes(inv: InvoiceData, o: Option<String>) -> InvoiceData {
    InvoiceData { notes: o, ..inv }
}

/// A client's second address line takes one line of the flow where it is
/// given and not empty, and none otherwise: leaving it out removes exactly
/// that line, keeps every other item, and lifts the rest by one line step.
pub proof fn law_client_line2_optional(inv: InvoiceData, line: String, other: Option<String>)
    requires
        line@.len() > 0,
        !shown(other),
    ensures
        ({
            let with = invoice_items(with_client_line2(inv, Some(line)));
            let without = invoice_items(with_client_line2(inv, other));
            let k = (heading_items(inv).len() + from_items(inv).len() + 3) as int;
            &&& with.len() == without.len() + 1
            &&& with[k] == body_line(line@, LINE_STEP)
            &&& without == with.remove(k)
            &&& total_drop(with) == total_drop(without) + LINE_STEP
        }),
{
    let a = with_client_line2(inv, Some(line));
    let b = with_client_line2(inv, other);
    let x = body_line(line@, LINE_STEP);
    let pre = heading_items(inv) + from_items(inv) + bill_to_items(inv.client).take(3);
    let post = optional_line(inv.client.email) + table_items(inv) + payment_items(inv.bank_data)
        + notes_items(inv.notes);
    assert(invoice_items(a) =~= pre + seq![x] + post);
    assert(invoice_items(b) =~= pre + post);
    lemma_remove_middle(pre, x, post);
}

/// A client's email takes one line of the flow where it is given and not
/// empty, and none otherwise: leaving it out removes exactly that line, keeps
/// every other item, and lifts the rest by one line step.
pub proof fn law_client_email_optional(inv: InvoiceData, email: String, other: Option<String>)
    requires
        email@.len() > 0,
        !shown(other),
    ensures
        ({
            let with = invoice_items(with_client_email(inv, Some(email)));
            let without = invoice_items(with_client_email(inv, other));
            let k = (heading_items(inv).len() + from_items(inv).len() + 3 + optional_line(
                inv.client.address_line2,
            ).len()) as int;
            &&& with.len() == without.len() + 1
            &&& with[k] == body_line(email@, LINE_STEP)
            &&& without == with.remove(k)
            &&& total_drop(with) == total_drop(without) + LINE_STEP
        }),
{
    let a = with_client_email(inv, Some(email));
    let b = with_client_email(inv, other);
    let x = body_line(email@, LINE_STEP);
    let pre = heading_items(inv) + from_items(inv) + bill_to_items(inv.client).take(3)
        + optional_line(inv.client.address_line2);
    let post = table_items(inv) + payment_items(inv.bank_data) + notes_items(inv.notes);
    assert(invoice_items(a) =~= pre + seq![x] + post);
    assert(invoice_items(b) =~= pre + post);
    lemma_remove_middle(pre, x, post);
}

/// The beneficiary's second address line takes one line of the flow where it
/// is given and not empty, and none otherwise: leaving it out removes exactly
/// that line, keeps every other item, and lifts the rest by one line step.
pub proof fn law_beneficiary_line2_optional(inv: InvoiceData, line: String, other: Option<String>)
    requires
        line@.len() > 0,
        !shown(other),
    ensures
        ({
            let with = invoice_items(with_beneficiary_line2(inv, Some(line)));
            let without = invoice_items(with_beneficiary_line2(inv, other));
            let k = (heading_items(inv).len() + 3) as int;
            &&& with.len() == without.len() + 1
            &&& with[k] == body_line(line@, LINE_STEP)
            &&& without == with.remove(k)
            &&& total_drop(with) == total_drop(without) + LINE_STEP
        }),
{
    let a = with_beneficiary_line2(inv, Some(line));
    let b = with_beneficiary_line2(inv, other);
    let x = body_line(line@, LINE_STEP);
    let pre = heading_items(inv) + from_items(inv).take(3);
    let post = seq![body_line(city_line_text(inv.address_data), LINE_STEP)] + bill_to_items(
        inv.client,
    ) + table_items(inv) + payment_items(inv.bank_data) + notes_items(inv.notes);
    assert(invoice_items(a) =~= pre + seq![x] + post);
    assert(invoice_items(b) =~= pre + post);
    lemma_remove_middle(pre, x, post);
}

/// Notes that are given and not empty add a bold "NOTES:" heading and the
/// notes at the end of the flow; otherwise the flow ends with the bank lines.
/// Every other item is the same either way.
pub proof fn law_notes_optional(inv: InvoiceData, notes: String, other: Option<String>)
    requires
        notes@.len() > 0,
        !shown(other),
    ensures
        ({
            let with = invoice_items(with_notes(inv, Some(notes)));
            let without = invoice_items(with_notes(inv, other));
            let n = without.len() as int;
            &&& with.len() == n + 2
            &&& without == with.take(n)
            &&& with[n] == text_item("NOTES:"@, MARGIN, 100, BODY_SIZE, true)
            &&& with[n + 1] == text_item(notes@, MARGIN, 60, 10, false)
            &&& total_drop(with) == total_drop(without) + 160
        }),
{
    let a = with_notes(inv, Some(notes));
    let b = with_notes(inv, other);
    let base = heading_items(inv) + from_items(inv) + bill_to_items(inv.client) + table_items(inv)
        + payment_items(inv.bank_data);
    let tail = notes_items(Some(notes));
    assert(invoice_items(a) =~= base + tail);
    assert(invoice_items(b) =~= base);
    assert((base + tail).take(base.len() as int) =~= base);
    lemma_total_drop_concat(base, tail);
    assert(total_drop(tail) == 160) by {
        reveal_with_fuel(drop_sum, 3);
    }
}

/// The labels of the bank lines, in the order they are printed.
pub open spec fn bank_labels() -> Seq<Seq<char>> {
    seq![
        "Beneficiary/Account Name: "@,
        "Bank Name: "@,
        "Bank Address: "@,
        "Account Type: "@,
        "Account Number: "@,
        "Wire Routing: "@,
        "SWIFT Code: "@,
    ]
}

/// The bank fields, in the order of their labels.
pub open spec fn bank_values(b: BankData) -> Seq<Seq<char>> {
    seq![
        b.beneficiary_account_name@,
        b.bank_name@,
        b.bank_address@,
        b.account_type@,
        b.account_number@,
        b.wire_routing@,
        b.swift_code@,
    ]
}

/// Under the bold payment heading stand exactly seven bank lines, each its
/// label followed by the field as given (an empty field still gets its
/// labelled line), in the fixed order of the labels; after them the flow
/// ends or the notes begin.
pub proof fn law_bank_lines_fixed(inv: InvoiceData)
    ensures
        ({
            let s = invoice_items(inv);
            let p = payment_start(inv);
            &&& p + 8 <= s.len()
            &&& s[p].mark == (MarkView::Text { text: "PAYMENT INFORMATION"@, size: 12, bold: true })
            &&& forall|j: int|
                0 <= j < 7 ==> #[trigger] s[p + 1 + j] == text_item(
                    bank_labels()[j] + bank_values(inv.bank_data)[j],
                    MARGIN,
                    if j == 0 { 60 } else { LINE_STEP },
                    10,
                    false,
                )
            &&& p + 8 == s.len() || s[p + 8].mark == (MarkView::Text {
                text: "NOTES:"@,
                size: BODY_SIZE,
                bold: true,
            })
        }),
{
    let s = invoice_items(inv);
    let p = payment_start(inv);
    let pay = payment_items(inv.bank_data);
    let head = heading_items(inv) + from_items(inv) + bill_to_items(inv.client) + table_items(inv);
    assert(s =~= head + pay + notes_items(inv.notes));
    assert(head.len() == p);
    assert forall|j: int| 0 <= j < 7 implies #[trigger] s[p + 1 + j] == text_item(
        bank_labels()[j] + bank_values(inv.bank_data)[j],
        MARGIN,
        if j == 0 { 60 } else { LINE_STEP },
        10,
        false,
    ) by {
        assert(s[p + 1 + j] == pay[1 + j]);
    }
    if shown(inv.notes) {
        assert(s[p + 8] == notes_items(inv.notes)[0]);
    }
}

} // verus!
