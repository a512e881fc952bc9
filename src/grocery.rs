//! The grocery list: its items, the grammar of its sub-commands, identifier
//! allocation and the rendering of the list.

use vstd::prelude::*;
use vstd::string::*;
use crate::text::{
    decimal, decimal_text, is_space, lemma_run_end_bounds, lower_of, lowercase, run_end, same_text, scan_run,
};

verus! {

/// The grocery sub-commands, shown when a grocery command is not understood.
pub const GROCERY_HELP: &'static str = "Grocery allowed commands:
    list [category]
    add {category}
        product1
        product2
        product3
        ...
    rem {product_id}";

/// Identifiers are drawn from `1..MAX_ITEMS_IN_DB`.
pub const MAX_ITEMS_IN_DB: u32 = 10000;

/// One entry of the grocery list.
pub struct GroceryItem {
    pub category: String,
    pub groid: u32,
    pub product: String,
}

/// The texts of a sequence of strings.
pub open spec fn texts(v: Seq<String>) -> Seq<Seq<char>> {
    v.map_values(|p: String| p@)
}

/// The pieces of `s` between the occurrences of `sep`, as `str::split` cuts
/// them: one more piece than there are separators.
pub open spec fn split_on(s: Seq<char>, sep: char) -> Seq<Seq<char>>
    decreases s.len(),
{
    if s.len() == 0 {
        seq![Seq::empty()]
    } else {
        let pre = split_on(s.drop_last(), sep);
        if s.last() == sep {
            pre.push(Seq::empty())
        } else {
            pre.update(pre.len() - 1, pre.last().push(s.last()))
        }
    }
}

proof fn lemma_split_nonempty(s: Seq<char>, sep: char)
    ensures
        split_on(s, sep).len() >= 1,
    decreases s.len(),
{
    if s.len() > 0 {
        lemma_split_nonempty(s.drop_last(), sep);
    }
}

/// Cuts `s` at every `sep`.
pub fn split_text(s: &str, sep: char) -> (r: Vec<String>)
    ensures
        texts(r@) == split_on(s@, sep),
{
    let n = s.unicode_len();
    let mut pieces: Vec<String> = Vec::new();
    let mut start: usize = 0;
    let mut i: usize = 0;
    assert(texts(pieces@) =~= Seq::<Seq<char>>::empty());
    assert(s@.subrange(0, 0) =~= Seq::<char>::empty());
    assert(split_on(Seq::<char>::empty(), sep) =~= seq![Seq::<char>::empty()]);
    while i < n
        invariant
            n == s@.len(),
            start <= i <= n,
            split_on(s@.subrange(0, i as int), sep) == texts(pieces@).push(
                s@.subrange(start as int, i as int),
            ),
        decreases n - i,
    {
        let c = s.get_char(i);
        proof {
            let t = s@.subrange(0, i + 1);
            assert(t.drop_last() =~= s@.subrange(0, i as int));
            assert(t.last() == c);
            lemma_split_nonempty(s@.subrange(0, i as int), sep);
        }
        if c == sep {
            let piece = String::from_str(s.substring_char(start, i));
            let ghost before = pieces@;
            let ghost text = piece@;
            pieces.push(piece);
            start = i + 1;
            assert(texts(pieces@) =~= texts(before).push(text));
            assert(s@.subrange(start as int, i + 1) =~= Seq::<char>::empty());
        } else {
            proof {
                assert(s@.subrange(start as int, i + 1) =~= s@.subrange(start as int, i as int).push(c));
                assert(split_on(s@.subrange(0, i + 1), sep) =~= texts(pieces@).push(
                    s@.subrange(start as int, i + 1),
                ));
            }
        }
        i = i + 1;
    }
    let last = String::from_str(s.substring_char(start, n));
    let ghost before = pieces@;
    let ghost text = last@;
    pieces.push(last);
    assert(s@.subrange(0, n as int) =~= s@);
    assert(texts(pieces@) =~= texts(before).push(text));
    pieces
}

/// A grocery sub-command, once parsed.
pub enum GroceryCommand {
    /// `list [category]`: the list, or the items of one category.
    List(Option<String>),
    /// `add {category}` and the product lines under it, blank ones included.
    Add { category: String, products: Vec<String> },
    /// `rem {id},{id},...`: the comma-separated tokens, not yet read as numbers.
    Remove(Vec<String>),
    /// Anything else: answered with the help text.
    Help,
}

/// The text of an optional string.
pub open spec fn opt_text(o: Option<String>) -> Option<Seq<char>> {
    match o {
        Some(t) => Some(t@),
        None => None,
    }
}

/// The end of the sub-command word of `s` and the start of its argument.
pub open spec fn sub_split(s: Seq<char>) -> (int, int) {
    let k = run_end(s, 0, false);
    (k, run_end(s, k, true))
}

/// Whether `s` is a word, alone or followed by whitespace and an argument
/// (`^(\w+)(?:\s+(.*))?$`).
pub open spec fn sub_matches(s: Seq<char>) -> bool {
    let (k, r) = sub_split(s);
    k > 0 && (k == s.len() || r > k)
}

/// The sub-command word, lower-cased.
pub open spec fn sub_word(s: Seq<char>) -> Seq<char> {
    lower_of(s.subrange(0, sub_split(s).0))
}

/// The argument after the sub-command word, if there is any whitespace after it.
pub open spec fn sub_arg(s: Seq<char>) -> Option<Seq<char>> {
    let (k, r) = sub_split(s);
    if k == s.len() {
        None
    } else {
        Some(s.subrange(r, s.len() as int))
    }
}

/// What `parse_grocery_command` makes of `s`.
pub open spec fn grocery_command_spec(s: Seq<char>, c: GroceryCommand) -> bool {
    if !sub_matches(s) {
        c is Help
    } else if sub_word(s) == "list"@ {
        c is List && opt_text(c->List_0) == sub_arg(s)
    } else if sub_word(s) == "add"@ {
        match sub_arg(s) {
            None => c is Help,
            Some(b) => {
                let lines = split_on(b, '\n');
                if lines.len() < 2 {
                    c is Help
                } else {
                    &&& c is Add
                    &&& c->category@ == lines[0]
                    &&& texts(c->products@) == lines.drop_first()
                }
            },
        }
    } else if sub_word(s) == "rem"@ {
        match sub_arg(s) {
            None => c is Help,
            Some(b) => c is Remove && texts(c->Remove_0@) == split_on(b, ','),
        }
    } else {
        c is Help
    }
}

/// Parses what follows `gro` or `grocery`: a sub-command word (any case),
/// then, after whitespace, its argument. `add` takes a category line and
/// product lines; `rem` takes comma-separated identifiers.
pub fn parse_grocery_command(s: &str) -> (c: GroceryCommand)
    ensures
        grocery_command_spec(s@, c),
{
    let n = s.unicode_len();
    let k = scan_run(s, 0, false);
    if k == 0 {
        return GroceryCommand::Help;
    }
    let arg: Option<&str> = if k == n {
        None
    } else {
        if !is_space(s.get_char(k)) {
            return GroceryCommand::Help;
        }
        let r = scan_run(s, k, true);
        proof {
            lemma_run_end_bounds(s@, k + 1, true);
        }
        Some(s.substring_char(r, n))
    };
    let word = lowercase(s.substring_char(0, k));
    if same_text(word.as_str(), "list") {
        match arg {
            Some(a) => GroceryCommand::List(Some(String::from_str(a))),
            None => GroceryCommand::List(None),
        }
    } else if same_text(word.as_str(), "add") {
        match arg {
            None => GroceryCommand::Help,
            Some(a) => {
                let mut lines = split_text(a, '\n');
                if lines.len() < 2 {
                    GroceryCommand::Help
                } else {
                    let ghost all = lines@;
                    let category = lines.remove(0);
                    assert(texts(lines@) =~= texts(all).drop_first());
                    GroceryCommand::Add { category, products: lines }
                }
            },
        }
    } else if same_text(word.as_str(), "rem") {
        match arg {
            None => GroceryCommand::Help,
            Some(a) => GroceryCommand::Remove(split_text(a, ',')),
        }
    } else {
        GroceryCommand::Help
    }
}

/// Whether some item of `items` carries the identifier `n`.
pub open spec fn id_in_use(items: Seq<GroceryItem>, n: int) -> bool {
    exists|j: int| 0 <= j < items.len() && items[j].groid == n
}

/// Whether `n` is the smallest identifier of `1..MAX_ITEMS_IN_DB` that no item
/// of `items` carries.
pub open spec fn least_free_id(items: Seq<GroceryItem>, n: int) -> bool {
    &&& 1 <= n < MAX_ITEMS_IN_DB
    &&& !id_in_use(items, n)
    &&& forall|m: int| 1 <= m < n ==> id_in_use(items, m)
}

/// Whether every identifier of `1..MAX_ITEMS_IN_DB` is taken.
pub open spec fn ids_exhausted(items: Seq<GroceryItem>) -> bool {
    forall|m: int| 1 <= m < MAX_ITEMS_IN_DB ==> id_in_use(items, m)
}

/// The error when no identifier is left.
pub const ID_SPACE_FULL: &'static str = "Too many products in the database";

fn carries_id(items: &Vec<GroceryItem>, n: u32) -> (r: bool)
    ensures
        r == id_in_use(items@, n as int),
{
    let mut j: usize = 0;
    while j < items.len()
        invariant
            j <= items@.len(),
            forall|i: int| 0 <= i < j ==> items@[i].groid != n,
        decreases items@.len() - j,
    {
        if items[j].groid == n {
            return true;
        }
        j = j + 1;
    }
    false
}

/// The smallest identifier in `1..MAX_ITEMS_IN_DB` that no item carries, or
/// an error when all are taken.
pub fn get_smallest_available_id(items: &Vec<GroceryItem>) -> (r: Result<u32, String>)
    ensures
        r is Ok <==> !ids_exhausted(items@),
        r is Ok ==> least_free_id(items@, r->Ok_0 as int),
        r is Err ==> r->Err_0@ == ID_SPACE_FULL@,
{
    let mut n: u32 = 1;
    while n < MAX_ITEMS_IN_DB
        invariant
            1 <= n <= MAX_ITEMS_IN_DB,
            forall|m: int| 1 <= m < n ==> id_in_use(items@, m),
        decreases MAX_ITEMS_IN_DB - n,
    {
        if !carries_id(items, n) {
            return Ok(n);
        }
        n = n + 1;
    }
    Err(String::from_str(ID_SPACE_FULL))
}

/// The list text from `items` on, after an item of category `prev` (`None`
/// at the start of the list): a `category:` line for the first item and
/// wherever the category changes, then `(id) product`.
pub open spec fn render_from(items: Seq<GroceryItem>, prev: Option<Seq<char>>) -> Seq<char>
    decreases items.len(),
{
    if items.len() == 0 {
        Seq::empty()
    } else {
        let it = items[0];
        let head = if prev != Some(it.category@) {
            it.category@ + ":\n"@
        } else {
            Seq::empty()
        };
        head + item_line(it) + render_from(items.drop_first(), Some(it.category@))
    }
}

/// The line of one item: `(id) product`.
pub open spec fn item_line(it: GroceryItem) -> Seq<char> {
    "("@ + decimal(it.groid as nat) + ") "@ + it.product@ + "\n"@
}

/// The reply to `list`.
pub open spec fn list_text(items: Seq<GroceryItem>) -> Seq<char> {
    if items.len() == 0 {
        "List is empty"@
    } else {
        render_from(items, None)
    }
}

/// Renders the items as found (sorted by category): each run of one
/// category under a `category:` header, one `(id) product` line per item.
pub fn handle_list_request(items: &Vec<GroceryItem>) -> (r: String)
    ensures
        r@ == list_text(items@),
{
    if items.len() == 0 {
        return String::from_str("List is empty");
    }
    let mut msg = String::new();
    let mut prev = String::new();
    let mut i: usize = 0;
    let n = items.len();
    assert(items@.subrange(0, n as int) =~= items@);
    while i < n
        invariant
            n == items@.len(),
            i <= n,
            msg@ + render_from(
                items@.subrange(i as int, n as int),
                if i == 0 {
                    None
                } else {
                    Some(prev@)
                },
            ) == render_from(items@, None),
        decreases n - i,
    {
        let it = &items[i];
        let ghost rest = items@.subrange(i as int, n as int);
        assert(rest.drop_first() =~= items@.subrange(i + 1, n as int));
        let ghost before = msg@;
        let ghost old_prev = if i == 0 {
            None
        } else {
            Some(prev@)
        };
        let ghost head = if old_prev != Some(it.category@) {
            it.category@ + ":\n"@
        } else {
            Seq::empty()
        };
        if i == 0 || !same_text(it.category.as_str(), prev.as_str()) {
            msg.append(it.category.as_str());
            msg.append(":\n");
            prev = it.category.clone();
        }
        assert(msg@ =~= before + head);
        let id = decimal_text(it.groid);
        msg.append("(");
        msg.append(id.as_str());
        msg.append(") ");
        msg.append(it.product.as_str());
        msg.append("\n");
        assert(msg@ =~= before + head + item_line(*it));
        proof {
            assert(prev@ == it.category@);
            assert(before + render_from(rest, old_prev) =~= msg@ + render_from(
                items@.subrange(i + 1, n as int),
                Some(prev@),
            ));
        }
        i = i + 1;
    }
    assert(items@.subrange(n as int, n as int) =~= Seq::<GroceryItem>::empty());
    assert(msg@ =~= msg@ + Seq::<char>::empty());
    msg
}

/// Adding items one at a time, each under the least free identifier, gives
/// every item an identifier in `1..MAX_ITEMS_IN_DB` that no item had, and
/// the next item a larger one: no identifier is handed out twice.
pub proof fn lemma_sequential_adds(items: Seq<GroceryItem>, it: GroceryItem, m: int)
    requires
        least_free_id(items, it.groid as int),
        least_free_id(items.push(it), m),
    ensures
        1 <= it.groid < MAX_ITEMS_IN_DB,
        !id_in_use(items, it.groid as int),
        it.groid < m,
        !id_in_use(items.push(it), m),
{
    let after = items.push(it);
    assert(after[items.len() as int] == it);
    if m <= it.groid {
        if m == it.groid {
            assert(id_in_use(after, m));
        } else {
            assert(id_in_use(items, m));
            let j = choose|j: int| 0 <= j < items.len() && items[j].groid == m;
            assert(after[j] == items[j]);
            assert(id_in_use(after, m));
        }
    }
}

/// The items left once those with identifier `id` are deleted.
pub open spec fn without_id(items: Seq<GroceryItem>, id: u32) -> Seq<GroceryItem>
    decreases items.len(),
{
    if items.len() == 0 {
        Seq::empty()
    } else if items[0].groid == id {
        without_id(items.drop_first(), id)
    } else {
        seq![items[0]] + without_id(items.drop_first(), id)
    }
}

/// Deleting an identifier that no item carries leaves the list as it was.
pub proof fn lemma_remove_absent(items: Seq<GroceryItem>, id: u32)
    requires
        !id_in_use(items, id as int),
    ensures
        without_id(items, id) == items,
    decreases items.len(),
{
    if items.len() > 0 {
        let rest = items.drop_first();
        assert forall|j: int| 0 <= j < rest.len() implies rest[j].groid != id by {
            assert(rest[j] == items[j + 1]);
        }
        lemma_remove_absent(rest, id);
        assert(items =~= seq![items[0]] + rest);
    }
}

/// After deleting `id`, no item carries it.
pub proof fn lemma_remove_gone(items: Seq<GroceryItem>, id: u32)
    ensures
        !id_in_use(without_id(items, id), id as int),
    decreases items.len(),
{
    if items.len() > 0 {
        let rest = items.drop_first();
        lemma_remove_gone(rest, id);
        if items[0].groid != id {
            let w = without_id(rest, id);
            let all = seq![items[0]] + w;
            assert forall|j: int| 0 <= j < all.len() implies all[j].groid != id by {
                if j > 0 {
                    assert(all[j] == w[j - 1]);
                }
            }
        }
    }
}

/// The categories that `render_from` writes a header for, in order.
pub open spec fn headers(items: Seq<GroceryItem>, prev: Option<Seq<char>>) -> Seq<Seq<char>>
    decreases items.len(),
{
    if items.len() == 0 {
        Seq::empty()
    } else {
        let c = items[0].category@;
        let head: Seq<Seq<char>> = if prev != Some(c) {
            seq![c]
        } else {
            Seq::empty()
        };
        head + headers(items.drop_first(), Some(c))
    }
}

/// Whether the items of each category stand together, as a sort by category
/// leaves them.
pub open spec fn grouped(items: Seq<GroceryItem>) -> bool {
    forall|i: int, j: int, k: int|
        0 <= i < j < k < items.len() && #[trigger] items[i].category@ == #[trigger] items[k].category@
            ==> #[trigger] items[j].category@ == items[i].category@
}

/// A header stands where the category changes.
proof fn lemma_header_at_change(items: Seq<GroceryItem>, prev: Option<Seq<char>>, h: Seq<char>)
    requires
        headers(items, prev).contains(h),
    ensures
        exists|j: int|
            0 <= j < items.len() && (#[trigger] items[j]).category@ == h && (if j == 0 {
                prev != Some(h)
            } else {
                items[j - 1].category@ != h
            }),
    decreases items.len(),
{
    let c = items[0].category@;
    let rest = items.drop_first();
    if prev != Some(c) && h == c {
        assert(items[0].category@ == h);
    } else {
        let head: Seq<Seq<char>> = if prev != Some(c) {
            seq![c]
        } else {
            Seq::empty()
        };
        let tail = headers(rest, Some(c));
        let i = choose|i: int| 0 <= i < headers(items, prev).len() && headers(items, prev)[i] == h;
        assert(headers(items, prev) == head + tail);
        assert(tail.contains(h)) by {
            assert(tail[i - head.len()] == h);
        }
        lemma_header_at_change(rest, Some(c), h);
        let j = choose|j: int|
            0 <= j < rest.len() && (#[trigger] rest[j]).category@ == h && (if j == 0 {
                Some(c) != Some(h)
            } else {
                rest[j - 1].category@ != h
            });
        assert(items[j + 1] == rest[j]);
        if j > 0 {
            assert(items[j] == rest[j - 1]);
        }
    }
}

/// In the list of items sorted by category, each category's header is
/// written once: no two headers name the same category.
pub proof fn lemma_headers_once(items: Seq<GroceryItem>, prev: Option<Seq<char>>)
    requires
        grouped(items),
    ensures
        forall|a: int, b: int|
            0 <= a < b < headers(items, prev).len() ==> headers(items, prev)[a] != headers(
                items,
                prev,
            )[b],
    decreases items.len(),
{
    if items.len() > 0 {
        let c = items[0].category@;
        let rest = items.drop_first();
        assert forall|i: int, j: int, k: int|
            0 <= i < j < k < rest.len() && #[trigger] rest[i].category@ == #[trigger] rest[k].category@
                implies #[trigger] rest[j].category@ == rest[i].category@ by {
            assert(rest[i] == items[i + 1] && rest[j] == items[j + 1] && rest[k] == items[k + 1]);
        }
        lemma_headers_once(rest, Some(c));
        let tail = headers(rest, Some(c));
        if tail.contains(c) {
            lemma_header_at_change(rest, Some(c), c);
            let j = choose|j: int|
                0 <= j < rest.len() && (#[trigger] rest[j]).category@ == c && (if j == 0 {
                    Some(c) != Some(c)
                } else {
                    rest[j - 1].category@ != c
                });
            assert(items[j + 1] == rest[j] && items[j] == rest[j - 1]);
            assert(items[0].category@ == items[j + 1].category@);
        }
        let head: Seq<Seq<char>> = if prev != Some(c) {
            seq![c]
        } else {
            Seq::empty()
        };
        let all = headers(items, prev);
        assert(all == head + tail);
        assert forall|a: int, b: int| 0 <= a < b < all.len() implies all[a] != all[b] by {
            if head.len() == 1 && a == 0 {
                assert(all[b] == tail[b - 1]);
                assert(tail.contains(all[b]));
            } else {
                assert(all[a] == tail[a - head.len()]);
                assert(all[b] == tail[b - head.len()]);
            }
        }
    }
}

/// Every category in the list is under a header; from the start of the list
/// (`prev` is `None`) that holds of every item, whatever its category.
pub proof fn lemma_every_category_headed(items: Seq<GroceryItem>, prev: Option<Seq<char>>, j: int)
    requires
        0 <= j < items.len(),
        prev != Some(items[j].category@),
    ensures
        headers(items, prev).contains(items[j].category@),
    decreases items.len(),
{
    let c = items[0].category@;
    let rest = items.drop_first();
    let head: Seq<Seq<char>> = if prev != Some(c) {
        seq![c]
    } else {
        Seq::empty()
    };
    let tail = headers(rest, Some(c));
    assert(headers(items, prev) == head + tail);
    if j == 0 || items[j].category@ == c {
        assert((head + tail)[0] == c);
    } else {
        assert(rest[j - 1] == items[j]);
        lemma_every_category_headed(rest, Some(c), j - 1);
        let i = choose|i: int| 0 <= i < tail.len() && tail[i] == items[j].category@;
        assert((head + tail)[head.len() + i] == tail[i]);
    }
}

/// A nonempty list opens with the first item's category header, whatever
/// that category is, the empty one included.
pub proof fn lemma_list_opens_with_header(items: Seq<GroceryItem>)
    requires
        items.len() > 0,
    ensures
        list_text(items) == items[0].category@ + ":\n"@ + item_line(items[0]) + render_from(
            items.drop_first(),
            Some(items[0].category@),
        ),
{
}

/// Items that all share the category just before them get no header.
proof fn lemma_same_category_no_header(items: Seq<GroceryItem>, c: Seq<char>)
    requires
        forall|j: int| 0 <= j < items.len() ==> (#[trigger] items[j]).category@ == c,
    ensures
        headers(items, Some(c)) == Seq::<Seq<char>>::empty(),
    decreases items.len(),
{
    if items.len() > 0 {
        let rest = items.drop_first();
        assert forall|j: int| 0 <= j < rest.len() implies (#[trigger] rest[j]).category@ == c by {
            assert(rest[j] == items[j + 1]);
        }
        lemma_same_category_no_header(rest, c);
        assert(items[0].category@ == c);
        assert(headers(items, Some(c)) =~= Seq::<Seq<char>>::empty());
    }
}

/// A list of one category (as a `list {category}` filter returns it) has
/// exactly one header, that category's.
pub proof fn lemma_filtered_single_header(items: Seq<GroceryItem>, c: Seq<char>)
    requires
        items.len() > 0,
        forall|j: int| 0 <= j < items.len() ==> (#[trigger] items[j]).category@ == c,
    ensures
        headers(items, None) == seq![c],
{
    let rest = items.drop_first();
    assert forall|j: int| 0 <= j < rest.len() implies (#[trigger] rest[j]).category@ == c by {
        assert(rest[j] == items[j + 1]);
    }
    lemma_same_category_no_header(rest, c);
    assert(items[0].category@ == c);
    assert(headers(items, None) =~= seq![c]);
}

} // verus!
