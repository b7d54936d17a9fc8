//! The lines the command-line tool prints.

use vstd::prelude::*;
use crate::messages::InventoryItem;
use crate::text::{format_radix, lemma_parse_format_roundtrip, parse_u32_spec, radix_digits, zero_pad};

verus! {

/// `dest` as at least 4 hex digits, then ` was `, the old value as at least 8
/// hex digits, `, now ` and the new value as at least 8 hex digits.
pub open spec fn memory_report_spec(dest: u32, old_value: u32, new_value: u32) -> Seq<char> {
    zero_pad(radix_digits(dest as nat, 16), 4) + " was "@ + zero_pad(
        radix_digits(old_value as nat, 16),
        8,
    ) + ", now "@ + zero_pad(radix_digits(new_value as nat, 16), 8)
}

/// The line reporting a write of `new_value` at `dest` that replaced
/// `old_value`.
pub fn memory_report(dest: u32, old_value: u32, new_value: u32) -> (s: String)
    ensures
        s@ == memory_report_spec(dest, old_value, new_value),
{
    let mut s = format_radix(dest, 16, 4);
    s.append(" was ");
    s.append(format_radix(old_value, 16, 8).as_str());
    s.append(", now ");
    s.append(format_radix(new_value, 16, 8).as_str());
    s
}

/// `Found `, the quantity in decimal, ` of ` and the item id in hex.
pub open spec fn inventory_line_spec(item: InventoryItem) -> Seq<char> {
    "Found "@ + radix_digits(item.item.quantity as nat, 10) + " of "@ + radix_digits(
        item.item.id as nat,
        16,
    )
}

/// The line listing one bag entry.
pub fn inventory_line(item: &InventoryItem) -> (s: String)
    ensures
        s@ == inventory_line_spec(*item),
{
    let mut s = String::from_str("Found ");
    s.append(format_radix(item.item.quantity, 10, 0).as_str());
    s.append(" of ");
    s.append(format_radix(item.item.id, 16, 0).as_str());
    s
}

/// The bag line names the count in decimal and then the item kind in hex:
/// each part reads back as the value it stands for.
pub proof fn lemma_inventory_line_reads_back(i: InventoryItem)
    ensures
        exists|q: Seq<char>, d: Seq<char>|
            inventory_line_spec(i) == "Found "@ + q + " of "@ + d && parse_u32_spec(q, 10) == Some(
                i.item.quantity,
            ) && parse_u32_spec(d, 16) == Some(i.item.id),
{
    let q = radix_digits(i.item.quantity as nat, 10);
    let d = radix_digits(i.item.id as nat, 16);
    lemma_parse_format_roundtrip(i.item.quantity, 10, 0);
    lemma_parse_format_roundtrip(i.item.id, 16, 0);
    assert(zero_pad(q, 0) == q);
    assert(zero_pad(d, 0) == d);
    assert(inventory_line_spec(i) == "Found "@ + q + " of "@ + d);
}

/// The memory line names, in hex, the address, then the value it held, then
/// the value written: each part reads back as the value it stands for.
pub proof fn lemma_memory_report_reads_back(dest: u32, old_value: u32, new_value: u32)
    ensures
        exists|a: Seq<char>, o: Seq<char>, n: Seq<char>|
            memory_report_spec(dest, old_value, new_value) == a + " was "@ + o + ", now "@ + n
                && parse_u32_spec(a, 16) == Some(dest) && parse_u32_spec(o, 16) == Some(old_value)
                && parse_u32_spec(n, 16) == Some(new_value),
{
    lemma_parse_format_roundtrip(dest, 16, 4);
    lemma_parse_format_roundtrip(old_value, 16, 8);
    lemma_parse_format_roundtrip(new_value, 16, 8);
    let a = zero_pad(radix_digits(dest as nat, 16), 4);
    let o = zero_pad(radix_digits(old_value as nat, 16), 8);
    let n = zero_pad(radix_digits(new_value as nat, 16), 8);
    assert(memory_report_spec(dest, old_value, new_value) == a + " was "@ + o + ", now "@ + n);
}

} // verus!
