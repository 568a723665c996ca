//! The USB ID database (`usb.ids`): vendor and product names by ID.
//!
//! The file lists a vendor on a line of its own (`046d  Logitech, Inc.`)
//! and that vendor's products on the tab-indented lines below it
//! (`\tc52b  Unifying Receiver`). Lines indented by two tabs, comments,
//! and lines that do not parse are skipped.

use vstd::prelude::*;
use std::collections::HashMap;
use crate::text::{
    chars_to_string, first_line, lines, parse_radix, parse_unsigned, split_once_pat,
    split_once_str, str_to_chars, trim, trim_chars,
};

verus! {

broadcast use vstd::std_specs::hash::group_hash_axioms;

/// A vendor: its name and its products by ID.
pub struct Vendor {
    pub name: String,
    pub products: HashMap<u16, String>,
}

/// What a vendor holds, as plain values.
pub struct VendorView {
    pub name: Seq<char>,
    pub products: Map<u16, Seq<char>>,
}

impl View for Vendor {
    type V = VendorView;

    open spec fn view(&self) -> VendorView {
        VendorView { name: self.name@, products: self.products@.map_values(|s: String| s@) }
    }
}

/// Parser for the USB ID database (usb.ids file).
/// Maps vendor IDs to vendor names and product IDs to product names.
pub struct UsbIdDatabase {
    vendors: HashMap<u16, Vendor>,
}

impl View for UsbIdDatabase {
    type V = Map<u16, VendorView>;

    closed spec fn view(&self) -> Map<u16, VendorView> {
        self.vendors@.map_values(|v: Vendor| v@)
    }
}

/// The two-space separator between an ID and its name.
pub open spec fn id_separator() -> Seq<char> {
    seq![' ', ' ']
}

/// The state of the parse between lines: the vendors saved so far and the
/// vendor whose products are being read.
pub struct ParseState {
    pub vendors: Map<u16, VendorView>,
    pub current: Option<(u16, VendorView)>,
}

/// An ID and a name from `<hex id>  <name>`: the ID is trimmed and must be
/// hexadecimal and fit in 16 bits; the name is trimmed.
pub open spec fn id_and_name(s: Seq<char>) -> Option<(u16, Seq<char>)> {
    match split_once_str(s, id_separator()) {
        Some((id, name)) => match parse_unsigned(trim(id), 16, 0xFFFF) {
            Some(v) => Some((v as u16, trim(name))),
            None => None,
        },
        None => None,
    }
}

/// Whether `line` is a product line: one leading tab, not two.
pub open spec fn is_product_line(line: Seq<char>) -> bool {
    line.len() > 0 && line[0] == '\t' && !(line.len() > 1 && line[1] == '\t')
}

/// The effect of one line of the file on the parse.
pub open spec fn parse_step(st: ParseState, line: Seq<char>) -> ParseState {
    if line.len() == 0 || line[0] == '#' {
        st
    } else if is_product_line(line) {
        match (id_and_name(trim(line)), st.current) {
            (Some((pid, name)), Some((vid, v))) => ParseState {
                vendors: st.vendors,
                current: Some(
                    (vid, VendorView { name: v.name, products: v.products.insert(pid, name) }),
                ),
            },
            _ => st,
        }
    } else if line[0] != '\t' {
        let saved = match st.current {
            Some((vid, v)) => st.vendors.insert(vid, v),
            None => st.vendors,
        };
        ParseState {
            vendors: saved,
            current: match id_and_name(line) {
                Some((vid, name)) => Some((vid, VendorView { name, products: Map::empty() })),
                None => None,
            },
        }
    } else {
        st
    }
}

/// The parse state after the lines `ls`, starting from `st`.
pub open spec fn parse_lines(st: ParseState, ls: Seq<Seq<char>>) -> ParseState
    decreases ls.len(),
{
    if ls.len() == 0 {
        st
    } else {
        parse_lines(parse_step(st, ls[0]), ls.drop_first())
    }
}

/// The vendors of a finished parse, the last vendor read included.
pub open spec fn finish(st: ParseState) -> Map<u16, VendorView> {
    match st.current {
        Some((vid, v)) => st.vendors.insert(vid, v),
        None => st.vendors,
    }
}

/// The database that a `usb.ids` text describes. A vendor or product
/// listed twice keeps its last entry.
pub open spec fn usb_ids_of(contents: Seq<char>) -> Map<u16, VendorView> {
    finish(
        parse_lines(ParseState { vendors: Map::empty(), current: None }, lines(contents)),
    )
}

/// The parse state that the executable state stands for.
pub open spec fn state_of(vendors: HashMap<u16, Vendor>, current: Option<(u16, Vendor)>) -> ParseState {
    ParseState {
        vendors: vendors@.map_values(|v: Vendor| v@),
        current: match current {
            Some((vid, v)) => Some((vid, v@)),
            None => None,
        },
    }
}

/// `id_and_name` in executable form.
fn parse_id_and_name(s: &[char]) -> (r: Option<(u16, String)>)
    ensures
        match r {
            Some((id, name)) => id_and_name(s@) == Some((id, name@)),
            None => id_and_name(s@) is None,
        },
{
    let sep: [char; 2] = [' ', ' '];
    assert(sep@ =~= id_separator());
    match split_once_pat(s, sep.as_slice()) {
        Some((id, name)) => match parse_radix(trim_chars(id), 16, 0xFFFF) {
            Some(v) => Some((v as u16, chars_to_string(trim_chars(name)))),
            None => None,
        },
        None => None,
    }
}

impl UsbIdDatabase {
    /// Parse a usb.ids file from its contents.
    pub fn parse(contents: &str) -> (db: Self)
        ensures
            db@ == usb_ids_of(contents@),
    {
        let chars = str_to_chars(contents);
        let mut rest: &[char] = chars.as_slice();
        let mut vendors: HashMap<u16, Vendor> = HashMap::new();
        let mut current: Option<(u16, Vendor)> = None;
        proof {
            assert(state_of(vendors, current).vendors =~= Map::empty());
        }
        while rest.len() > 0
            invariant
                usb_ids_of(contents@) == finish(parse_lines(state_of(vendors, current), lines(rest@))),
            decreases rest@.len(),
        {
            let (line, next) = first_line(rest);
            let ghost st = state_of(vendors, current);
            proof {
                let ls = lines(rest@);
                assert(ls[0] == line@);
                assert(ls.drop_first() =~= lines(next@));
            }
            if line.len() == 0 || line[0] == '#' {
                // comment or empty line
            } else if line[0] == '\t' && !(line.len() > 1 && line[1] == '\t') {
                match parse_id_and_name(trim_chars(line)) {
                    Some((pid, name)) => {
                        current = match current {
                            Some((vid, mut v)) => {
                                let ghost old_products = v.products@;
                                v.products.insert(pid, name);
                                proof {
                                    assert(v.products@.map_values(|s: String| s@) =~= old_products.map_values(
                                        |s: String| s@,
                                    ).insert(pid, name@));
                                }
                                Some((vid, v))
                            },
                            None => None,
                        };
                    },
                    None => {},
                }
            } else if line[0] != '\t' {
                match current {
                    Some((vid, v)) => {
                        let ghost old_vendors = vendors@;
                        let ghost vv = v@;
                        vendors.insert(vid, v);
                        proof {
                            assert(vendors@.map_values(|v: Vendor| v@) =~= old_vendors.map_values(
                                |v: Vendor| v@,
                            ).insert(vid, vv));
                        }
                    },
                    None => {},
                }
                current = match parse_id_and_name(line) {
                    Some((vid, name)) => {
                        let products: HashMap<u16, String> = HashMap::new();
                        proof {
                            assert(products@.map_values(|s: String| s@) =~= Map::<u16, Seq<char>>::empty());
                        }
                        Some((vid, Vendor { name, products }))
                    },
                    None => None,
                };
            }
            proof {
                assert(state_of(vendors, current) == parse_step(st, line@));
            }
            rest = next;
        }
        proof {
            assert(lines(rest@) =~= Seq::<Seq<char>>::empty());
        }
        match current {
            Some((vid, v)) => {
                let ghost old_vendors = vendors@;
                let ghost vv = v@;
                vendors.insert(vid, v);
                proof {
                    assert(vendors@.map_values(|v: Vendor| v@) =~= old_vendors.map_values(
                        |v: Vendor| v@,
                    ).insert(vid, vv));
                }
            },
            None => {},
        }
        UsbIdDatabase { vendors }
    }

    /// Look up a vendor name by ID.
    pub fn vendor_name(&self, vendor_id: u16) -> (r: Option<&str>)
        ensures
            match r {
                Some(n) => self@.contains_key(vendor_id) && n@ == self@[vendor_id].name,
                None => !self@.contains_key(vendor_id),
            },
    {
        match self.vendors.get(&vendor_id) {
            Some(v) => Some(v.name.as_str()),
            None => None,
        }
    }

    /// Look up a product name by vendor and product ID.
    pub fn product_name(&self, vendor_id: u16, product_id: u16) -> (r: Option<&str>)
        ensures
            match r {
                Some(n) => self@.contains_key(vendor_id) && self@[vendor_id].products.contains_key(
                    product_id,
                ) && n@ == self@[vendor_id].products[product_id],
                None => !(self@.contains_key(vendor_id) && self@[vendor_id].products.contains_key(
                    product_id,
                )),
            },
    {
        match self.vendors.get(&vendor_id) {
            Some(v) => match v.products.get(&product_id) {
                Some(name) => Some(name.as_str()),
                None => None,
            },
            None => None,
        }
    }
}

/// Whether a line is one the parse passes over: empty, or a comment.
pub open spec fn is_skipped_line(line: Seq<char>) -> bool {
    line.len() == 0 || line[0] == '#'
}

/// The lines that the parse reads, in order: all but empty and comment
/// lines.
pub open spec fn kept_lines(ls: Seq<Seq<char>>) -> Seq<Seq<char>>
    decreases ls.len(),
{
    if ls.len() == 0 {
        Seq::empty()
    } else if is_skipped_line(ls[0]) {
        kept_lines(ls.drop_first())
    } else {
        seq![ls[0]] + kept_lines(ls.drop_first())
    }
}

proof fn lemma_parse_kept_lines(st: ParseState, ls: Seq<Seq<char>>)
    ensures
        parse_lines(st, ls) == parse_lines(st, kept_lines(ls)),
    decreases ls.len(),
{
    if ls.len() > 0 {
        let rest = ls.drop_first();
        if is_skipped_line(ls[0]) {
            assert(parse_step(st, ls[0]) == st);
            lemma_parse_kept_lines(st, rest);
        } else {
            let k = seq![ls[0]] + kept_lines(rest);
            assert(k[0] == ls[0]);
            assert(k.drop_first() =~= kept_lines(rest));
            lemma_parse_kept_lines(parse_step(st, ls[0]), rest);
        }
    }
}

/// Empty and comment lines do not matter: two files whose other lines are
/// the same, in the same order, describe the same database, whatever empty
/// or `#` lines stand before, between or after them.
pub proof fn law_blank_and_comment_lines_ignored(c: Seq<char>, c2: Seq<char>)
    requires
        kept_lines(lines(c2)) == kept_lines(lines(c)),
    ensures
        usb_ids_of(c2) == usb_ids_of(c),
{
    let st = ParseState { vendors: Map::empty(), current: None };
    lemma_parse_kept_lines(st, lines(c));
    lemma_parse_kept_lines(st, lines(c2));
}

/// Whether a line starts a vendor entry: not empty, not a comment, not
/// indented.
pub open spec fn is_vendor_line(line: Seq<char>) -> bool {
    line.len() > 0 && line[0] != '#' && line[0] != '\t'
}

/// Whether a line is a vendor line for the vendor ID `vid`.
pub open spec fn names_vendor(line: Seq<char>, vid: u16) -> bool {
    is_vendor_line(line) && (id_and_name(line) matches Some((v, _)) && v == vid)
}

/// While the lines after a vendor line of `vid` are read: the vendor is
/// either the one being read, under `name`, or already saved under it.
pub open spec fn vendor_held(st: ParseState, vid: u16, name: Seq<char>) -> bool {
    match st.current {
        Some((v, vv)) => if v == vid {
            vv.name == name
        } else {
            st.vendors.contains_key(vid) && st.vendors[vid].name == name
        },
        None => st.vendors.contains_key(vid) && st.vendors[vid].name == name,
    }
}

proof fn lemma_parse_split(st: ParseState, ls: Seq<Seq<char>>, n: int)
    requires
        0 <= n <= ls.len(),
    ensures
        parse_lines(st, ls) == parse_lines(parse_lines(st, ls.take(n)), ls.skip(n)),
    decreases ls.len(),
{
    if n == 0 {
        assert(ls.take(0) =~= Seq::<Seq<char>>::empty());
        assert(ls.skip(0) =~= ls);
    } else {
        let rest = ls.drop_first();
        lemma_parse_split(parse_step(st, ls[0]), rest, n - 1);
        let t = ls.take(n);
        assert(t[0] == ls[0]);
        assert(t.drop_first() =~= rest.take(n - 1));
        assert(rest.skip(n - 1) =~= ls.skip(n));
    }
}

proof fn lemma_vendor_stays(st: ParseState, rest: Seq<Seq<char>>, vid: u16, name: Seq<char>)
    requires
        vendor_held(st, vid, name),
        forall|j: int| 0 <= j < rest.len() ==> !names_vendor(#[trigger] rest[j], vid),
    ensures
        vendor_held(parse_lines(st, rest), vid, name),
    decreases rest.len(),
{
    if rest.len() > 0 {
        let l = rest[0];
        assert(!names_vendor(rest[0], vid));
        let st2 = parse_step(st, l);
        assert(vendor_held(st2, vid, name));
        assert forall|j: int| 0 <= j < rest.drop_first().len() implies !names_vendor(
            #[trigger] rest.drop_first()[j],
            vid,
        ) by {
            assert(rest.drop_first()[j] == rest[j + 1]);
        }
        lemma_vendor_stays(st2, rest.drop_first(), vid, name);
    }
}

/// Every vendor line is kept: a vendor line that gives vendor `vid` the
/// name `name`, and is the last line to name `vid`, puts that vendor in
/// the database under that name, whether product lines follow it or not.
pub proof fn law_every_vendor_line_is_kept(c: Seq<char>, i: int, vid: u16, name: Seq<char>)
    requires
        0 <= i < lines(c).len(),
        is_vendor_line(lines(c)[i]),
        id_and_name(lines(c)[i]) == Some((vid, name)),
        forall|j: int| i < j < lines(c).len() ==> !names_vendor(#[trigger] lines(c)[j], vid),
    ensures
        usb_ids_of(c).contains_key(vid),
        usb_ids_of(c)[vid].name == name,
{
    let ls = lines(c);
    let st0 = ParseState { vendors: Map::empty(), current: None };
    lemma_parse_split(st0, ls, i);
    let before = parse_lines(st0, ls.take(i));
    let tail = ls.skip(i);
    assert(tail[0] == ls[i]);
    let after = parse_step(before, ls[i]);
    assert(!is_product_line(ls[i]));
    assert(after.current == Some((vid, VendorView { name, products: Map::empty() })));
    assert(parse_lines(before, tail) == parse_lines(after, tail.drop_first()));
    assert forall|j: int| 0 <= j < tail.drop_first().len() implies !names_vendor(
        #[trigger] tail.drop_first()[j],
        vid,
    ) by {
        assert(tail.drop_first()[j] == ls[i + 1 + j]);
    }
    lemma_vendor_stays(after, tail.drop_first(), vid, name);
}

/// Whether a line is a product line for the product ID `pid`.
pub open spec fn lists_product(line: Seq<char>, pid: u16) -> bool {
    is_product_line(line) && (id_and_name(trim(line)) matches Some((p, _)) && p == pid)
}

/// Whether the vendor `vid` holds product `pid` under `pname`: in the
/// vendor being read, or in the saved one when another is being read.
pub open spec fn product_held(st: ParseState, vid: u16, pid: u16, pname: Seq<char>) -> bool {
    match st.current {
        Some((v, vv)) => if v == vid {
            vv.products.contains_key(pid) && vv.products[pid] == pname
        } else {
            st.vendors.contains_key(vid) && st.vendors[vid].products.contains_key(pid)
                && st.vendors[vid].products[pid] == pname
        },
        None => st.vendors.contains_key(vid) && st.vendors[vid].products.contains_key(pid)
            && st.vendors[vid].products[pid] == pname,
    }
}

/// Whether the vendor being read is `vid`.
pub open spec fn reading_vendor(st: ParseState, vid: u16) -> bool {
    st.current matches Some((v, _)) && v == vid
}

proof fn lemma_stays_in_vendor(st: ParseState, rest: Seq<Seq<char>>, vid: u16)
    requires
        reading_vendor(st, vid),
        forall|j: int| 0 <= j < rest.len() ==> !is_vendor_line(#[trigger] rest[j]),
    ensures
        reading_vendor(parse_lines(st, rest), vid),
    decreases rest.len(),
{
    if rest.len() > 0 {
        assert(!is_vendor_line(rest[0]));
        assert forall|j: int| 0 <= j < rest.drop_first().len() implies !is_vendor_line(
            #[trigger] rest.drop_first()[j],
        ) by {
            assert(rest.drop_first()[j] == rest[j + 1]);
        }
        lemma_stays_in_vendor(parse_step(st, rest[0]), rest.drop_first(), vid);
    }
}

proof fn lemma_product_after_block(st: ParseState, rest: Seq<Seq<char>>, vid: u16, pid: u16, pname: Seq<char>)
    requires
        !reading_vendor(st, vid),
        product_held(st, vid, pid, pname),
        forall|j: int| 0 <= j < rest.len() ==> !names_vendor(#[trigger] rest[j], vid),
    ensures
        product_held(parse_lines(st, rest), vid, pid, pname),
    decreases rest.len(),
{
    if rest.len() > 0 {
        assert(!names_vendor(rest[0], vid));
        let st2 = parse_step(st, rest[0]);
        assert(!reading_vendor(st2, vid));
        assert(product_held(st2, vid, pid, pname));
        assert forall|j: int| 0 <= j < rest.drop_first().len() implies !names_vendor(
            #[trigger] rest.drop_first()[j],
            vid,
        ) by {
            assert(rest.drop_first()[j] == rest[j + 1]);
        }
        lemma_product_after_block(st2, rest.drop_first(), vid, pid, pname);
    }
}

proof fn lemma_product_in_block(st: ParseState, rest: Seq<Seq<char>>, vid: u16, pid: u16, pname: Seq<char>)
    requires
        reading_vendor(st, vid),
        product_held(st, vid, pid, pname),
        forall|j: int| 0 <= j < rest.len() ==> !names_vendor(#[trigger] rest[j], vid),
        forall|j: int|
            0 <= j < rest.len() && lists_product(#[trigger] rest[j], pid) ==> exists|m: int|
                0 <= m < j && is_vendor_line(#[trigger] rest[m]),
    ensures
        product_held(parse_lines(st, rest), vid, pid, pname),
    decreases rest.len(),
{
    if rest.len() > 0 {
        let l = rest[0];
        assert(!names_vendor(l, vid));
        let st2 = parse_step(st, l);
        let tail = rest.drop_first();
        assert forall|j: int| 0 <= j < tail.len() implies !names_vendor(#[trigger] tail[j], vid) by {
            assert(tail[j] == rest[j + 1]);
        }
        if is_vendor_line(l) {
            assert(!reading_vendor(st2, vid));
            assert(product_held(st2, vid, pid, pname));
            lemma_product_after_block(st2, tail, vid, pid, pname);
        } else {
            if lists_product(l, pid) {
                let m = choose|m: int| 0 <= m < 0 && is_vendor_line(#[trigger] rest[m]);
                assert(false);
            }
            assert(reading_vendor(st2, vid));
            assert(product_held(st2, vid, pid, pname));
            assert forall|j: int|
                0 <= j < tail.len() && lists_product(#[trigger] tail[j], pid) implies exists|m: int|
                    0 <= m < j && is_vendor_line(#[trigger] tail[m]) by {
                assert(tail[j] == rest[j + 1]);
                assert(lists_product(rest[j + 1], pid));
                let m = choose|m: int| 0 <= m < j + 1 && is_vendor_line(#[trigger] rest[m]);
                assert(m != 0);
                assert(tail[m - 1] == rest[m]);
            }
            lemma_product_in_block(st2, tail, vid, pid, pname);
        }
    }
}

/// Every product line is kept: a product line `\t<pid>  <name>` in the
/// entry of vendor `vid` puts that product under that vendor with that
/// name, when the vendor is not named again later and the product is not
/// listed again in the same entry.
pub proof fn law_every_product_line_is_kept(c: Seq<char>, i: int, k: int, vid: u16, pid: u16, pname: Seq<char>)
    requires
        0 <= i < k < lines(c).len(),
        names_vendor(lines(c)[i], vid),
        forall|j: int| i < j < k ==> !is_vendor_line(#[trigger] lines(c)[j]),
        is_product_line(lines(c)[k]),
        id_and_name(trim(lines(c)[k])) == Some((pid, pname)),
        forall|j: int| i < j < lines(c).len() ==> !names_vendor(#[trigger] lines(c)[j], vid),
        forall|j: int|
            k < j < lines(c).len() && lists_product(#[trigger] lines(c)[j], pid) ==> exists|m: int|
                k < m < j && is_vendor_line(#[trigger] lines(c)[m]),
    ensures
        usb_ids_of(c).contains_key(vid),
        usb_ids_of(c)[vid].products.contains_key(pid),
        usb_ids_of(c)[vid].products[pid] == pname,
{
    let ls = lines(c);
    let st0 = ParseState { vendors: Map::empty(), current: None };
    lemma_parse_split(st0, ls, i);
    let a0 = parse_lines(st0, ls.take(i));
    assert(ls.skip(i)[0] == ls[i]);
    assert(ls.skip(i).drop_first() =~= ls.skip(i + 1));
    let a1 = parse_step(a0, ls[i]);
    assert(!is_product_line(ls[i]));
    assert(reading_vendor(a1, vid));
    let mid = ls.skip(i + 1);
    lemma_parse_split(a1, mid, k - i - 1);
    let between = mid.take(k - i - 1);
    assert forall|j: int| 0 <= j < between.len() implies !is_vendor_line(#[trigger] between[j]) by {
        assert(between[j] == ls[i + 1 + j]);
    }
    lemma_stays_in_vendor(a1, between, vid);
    let a2 = parse_lines(a1, between);
    let from_k = mid.skip(k - i - 1);
    assert(from_k =~= ls.skip(k));
    assert(from_k[0] == ls[k]);
    assert(from_k.drop_first() =~= ls.skip(k + 1));
    let a3 = parse_step(a2, ls[k]);
    assert(product_held(a3, vid, pid, pname));
    assert(reading_vendor(a3, vid));
    let after = ls.skip(k + 1);
    assert forall|j: int| 0 <= j < after.len() implies !names_vendor(#[trigger] after[j], vid) by {
        assert(after[j] == ls[k + 1 + j]);
    }
    assert forall|j: int|
        0 <= j < after.len() && lists_product(#[trigger] after[j], pid) implies exists|m: int|
            0 <= m < j && is_vendor_line(#[trigger] after[m]) by {
        assert(after[j] == ls[k + 1 + j]);
        assert(lists_product(ls[k + 1 + j], pid));
        let m = choose|m: int| k < m < k + 1 + j && is_vendor_line(#[trigger] ls[m]);
        assert(after[m - k - 1] == ls[m]);
    }
    lemma_product_in_block(a3, after, vid, pid, pname);
}

} // verus!
