//! The list of C items the bindings are generated for: one item per line,
//! `block:` and `opaque:` lines marking items to leave out or keep opaque,
//! `# ` lines commenting.
use vstd::prelude::*;
use crate::build::header::{split_lines, text_lines};
use crate::text::{chars_of, string_from_chars};

verus! {

/// What one line of the list asks of the bindings generator.
#[derive(Debug, PartialEq, Eq)]
pub enum AllowlistItem {
    /// Leave the item out (`blocklist_item`).
    Block(String),
    /// Generate the item as an opaque type (`opaque_type`).
    Opaque(String),
    /// Generate the item (`allowlist_item`).
    Allow(String),
}

/// The same item, with its name as characters.
pub enum ItemView {
    Block(Seq<char>),
    Opaque(Seq<char>),
    Allow(Seq<char>),
}

pub open spec fn item_view(i: AllowlistItem) -> ItemView {
    match i {
        AllowlistItem::Block(s) => ItemView::Block(s@),
        AllowlistItem::Opaque(s) => ItemView::Opaque(s@),
        AllowlistItem::Allow(s) => ItemView::Allow(s@),
    }
}

pub open spec fn starts_with(s: Seq<char>, p: Seq<char>) -> bool {
    p.len() <= s.len() && s.take(p.len() as int) == p
}

/// What a line of the list asks for: nothing for an empty line or a
/// comment (`# ` first), else the item after a `block:`, `opaque:` or
/// `allow:` prefix, the whole line being an allowed item without one.
pub open spec fn line_item(l: Seq<char>) -> Option<ItemView> {
    if l.len() == 0 || starts_with(l, "# "@) {
        None
    } else if starts_with(l, "block:"@) {
        Some(ItemView::Block(l.skip("block:"@.len() as int)))
    } else if starts_with(l, "opaque:"@) {
        Some(ItemView::Opaque(l.skip("opaque:"@.len() as int)))
    } else if starts_with(l, "allow:"@) {
        Some(ItemView::Allow(l.skip("allow:"@.len() as int)))
    } else {
        Some(ItemView::Allow(l))
    }
}

/// What the lines ask for, in order, leaving out those that ask nothing.
pub open spec fn list_items(ls: Seq<Seq<char>>) -> Seq<ItemView>
    decreases ls.len(),
{
    if ls.len() == 0 {
        seq![]
    } else {
        match line_item(ls.last()) {
            Some(i) => list_items(ls.drop_last()).push(i),
            None => list_items(ls.drop_last()),
        }
    }
}

/// What follows `prefix` in `line`, when the line starts with it.
fn strip_prefix(line: &Vec<char>, prefix: &str) -> (r: Option<String>)
    ensures
        r is Some <==> starts_with(line@, prefix@),
        r matches Some(s) ==> s@ == line@.skip(prefix@.len() as int),
{
    let p = chars_of(prefix);
    if p.len() > line.len() {
        return None;
    }
    let mut i: usize = 0;
    while i < p.len()
        invariant
            p@ == prefix@,
            p@.len() <= line@.len(),
            i <= p@.len(),
            forall|j: int| 0 <= j < i ==> line@[j] == p@[j],
        decreases p@.len() - i,
    {
        if line[i] != p[i] {
            assert(line@.take(p@.len() as int)[i as int] != p@[i as int]);
            return None;
        }
        i = i + 1;
    }
    assert(line@.take(p@.len() as int) =~= p@);
    let mut rest: Vec<char> = Vec::new();
    let mut k: usize = p.len();
    while k < line.len()
        invariant
            p@.len() <= k <= line@.len(),
            rest@ == line@.subrange(p@.len() as int, k as int),
        decreases line@.len() - k,
    {
        rest.push(line[k]);
        k = k + 1;
    }
    Some(string_from_chars(&rest))
}

fn item_of_line(line: &Vec<char>) -> (r: Option<AllowlistItem>)
    ensures
        r matches Some(i) ==> line_item(line@) == Some(item_view(i)),
        r is None ==> line_item(line@) is None,
{
    if line.len() == 0 {
        return None;
    }
    if strip_prefix(line, "# ").is_some() {
        return None;
    }
    if let Some(rest) = strip_prefix(line, "block:") {
        return Some(AllowlistItem::Block(rest));
    }
    if let Some(rest) = strip_prefix(line, "opaque:") {
        return Some(AllowlistItem::Opaque(rest));
    }
    match strip_prefix(line, "allow:") {
        Some(rest) => Some(AllowlistItem::Allow(rest)),
        None => Some(AllowlistItem::Allow(string_from_chars(line))),
    }
}

/// What one line of the list asks for (`None` for an empty line or a
/// comment).
pub fn allowlist_item(line: &str) -> (r: Option<AllowlistItem>)
    ensures
        r matches Some(i) ==> line_item(line@) == Some(item_view(i)),
        r is None ==> line_item(line@) is None,
{
    item_of_line(&chars_of(line))
}

/// What the list in `content` asks for, line by line.
pub fn allowlist_items(content: &str) -> (r: Vec<AllowlistItem>)
    ensures
        r@.map_values(|i: AllowlistItem| item_view(i)) == list_items(text_lines(content@)),
{
    let lines = split_lines(&chars_of(content));
    let ghost ls = lines@.map_values(|x: Vec<char>| x@);
    let mut out: Vec<AllowlistItem> = Vec::new();
    for k in 0..lines.len()
        invariant
            ls == lines@.map_values(|x: Vec<char>| x@),
            ls == text_lines(content@),
            out@.map_values(|i: AllowlistItem| item_view(i)) == list_items(ls.take(k as int)),
    {
        assert(ls.take(k + 1).drop_last() == ls.take(k as int));
        assert(ls.take(k + 1).last() == lines@[k as int]@);
        let ghost before = out@.map_values(|i: AllowlistItem| item_view(i));
        match item_of_line(&lines[k]) {
            Some(item) => {
                out.push(item);
                assert(out@.map_values(|i: AllowlistItem| item_view(i)) =~= before.push(
                    item_view(out@[out@.len() - 1]),
                ));
            },
            None => {},
        }
    }
    assert(ls.take(lines.len() as int) == ls);
    out
}

#[verifier::external_type_specification]
#[verifier::external_body]
pub struct ExBindgenBuilder(bindgen::Builder);

/// The item patterns a bindings builder generates, in the order given.
pub uninterp spec fn allowlisted_items(b: bindgen::Builder) -> Seq<Seq<char>>;

/// The item patterns a bindings builder leaves out, in the order given.
pub uninterp spec fn blocklisted_items(b: bindgen::Builder) -> Seq<Seq<char>>;

/// The type patterns a bindings builder keeps opaque, in the order given.
pub uninterp spec fn opaque_types(b: bindgen::Builder) -> Seq<Seq<char>>;

/// `bindgen::Builder::allowlist_item`: the source shows it appends the
/// pattern to the allowlisted items and touches no other of these lists.
#[verifier::external_body]
fn builder_allow(b: bindgen::Builder, item: &str) -> (r: bindgen::Builder)
    ensures
        allowlisted_items(r) == allowlisted_items(b).push(item@),
        blocklisted_items(r) == blocklisted_items(b),
        opaque_types(r) == opaque_types(b),
{
    b.allowlist_item(item)
}

/// `bindgen::Builder::blocklist_item`: the source shows it appends the
/// pattern to the blocklisted items and touches no other of these lists.
#[verifier::external_body]
fn builder_block(b: bindgen::Builder, item: &str) -> (r: bindgen::Builder)
    ensures
        blocklisted_items(r) == blocklisted_items(b).push(item@),
        allowlisted_items(r) == allowlisted_items(b),
        opaque_types(r) == opaque_types(b),
{
    b.blocklist_item(item)
}

/// `bindgen::Builder::opaque_type`: the source shows it appends the
/// pattern to the opaque types and touches no other of these lists.
#[verifier::external_body]
fn builder_opaque(b: bindgen::Builder, item: &str) -> (r: bindgen::Builder)
    ensures
        opaque_types(r) == opaque_types(b).push(item@),
        allowlisted_items(r) == allowlisted_items(b),
        blocklisted_items(r) == blocklisted_items(b),
{
    b.opaque_type(item)
}

/// The patterns of one kind that the items ask for, in order.
pub open spec fn allowed_of(items: Seq<ItemView>) -> Seq<Seq<char>>
    decreases items.len(),
{
    if items.len() == 0 {
        seq![]
    } else {
        match items.last() {
            ItemView::Allow(s) => allowed_of(items.drop_last()).push(s),
            _ => allowed_of(items.drop_last()),
        }
    }
}

pub open spec fn blocked_of(items: Seq<ItemView>) -> Seq<Seq<char>>
    decreases items.len(),
{
    if items.len() == 0 {
        seq![]
    } else {
        match items.last() {
            ItemView::Block(s) => blocked_of(items.drop_last()).push(s),
            _ => blocked_of(items.drop_last()),
        }
    }
}

pub open spec fn opaque_of(items: Seq<ItemView>) -> Seq<Seq<char>>
    decreases items.len(),
{
    if items.len() == 0 {
        seq![]
    } else {
        match items.last() {
            ItemView::Opaque(s) => opaque_of(items.drop_last()).push(s),
            _ => opaque_of(items.drop_last()),
        }
    }
}

/// Hands the list in `content` to the bindings builder: each item is
/// allowed, blocked or kept opaque as its line asks, in the order of the
/// lines.
pub fn load_allowlist_items(builder: bindgen::Builder, content: &str) -> (r: bindgen::Builder)
    ensures
        allowlisted_items(r) == allowlisted_items(builder) + allowed_of(list_items(text_lines(content@))),
        blocklisted_items(r) == blocklisted_items(builder) + blocked_of(list_items(text_lines(content@))),
        opaque_types(r) == opaque_types(builder) + opaque_of(list_items(text_lines(content@))),
{
    let items = allowlist_items(content);
    let ghost views = items@.map_values(|i: AllowlistItem| item_view(i));
    let mut b = builder;
    for k in 0..items.len()
        invariant
            views == items@.map_values(|i: AllowlistItem| item_view(i)),
            allowlisted_items(b) == allowlisted_items(builder) + allowed_of(views.take(k as int)),
            blocklisted_items(b) == blocklisted_items(builder) + blocked_of(views.take(k as int)),
            opaque_types(b) == opaque_types(builder) + opaque_of(views.take(k as int)),
    {
        assert(views.take(k + 1).drop_last() == views.take(k as int));
        assert(views.take(k + 1).last() == item_view(items@[k as int]));
        match &items[k] {
            AllowlistItem::Block(s) => {
                b = builder_block(b, s.as_str());
            },
            AllowlistItem::Opaque(s) => {
                b = builder_opaque(b, s.as_str());
            },
            AllowlistItem::Allow(s) => {
                b = builder_allow(b, s.as_str());
            },
        }
    }
    assert(views.take(items.len() as int) == views);
    b
}

} // verus!
