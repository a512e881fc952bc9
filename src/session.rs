//! One grocery command carried out against the document store, one store
//! request at a time: the session says what to ask, the caller asks the
//! store and hands back its reply, until the session finishes with the text
//! to send back to the chat.

use vstd::prelude::*;
use vstd::string::*;
use crate::grocery::{
    get_smallest_available_id, handle_list_request, ids_exhausted, least_free_id, list_text,
    parse_grocery_command, grocery_command_spec, opt_text, texts, GroceryCommand, GroceryItem,
    GROCERY_HELP, ID_SPACE_FULL,
};
use crate::text::{contains_text, find_text, parse_u32, text_at, trim_str, trimmed, u32_text,
    digits_value, unsigned_digits, occurs_at};

verus! {

/// The collection that holds the grocery list.
pub const GROCERY_COLLECTION_NAME: &'static str = "groceries";

/// The field that identifies an item, under a uniqueness index.
pub const ID_FIELD: &'static str = "groid";

/// What the store's message holds when an insert broke the uniqueness index.
pub const DUPLICATE_KEY_SIGNATURE: &'static str = "E11000 duplicate key error collection";

/// The reply once every product was added.
pub const ADDED_REPLY: &'static str = "Items successfully added!";

/// The reply once every identifier was removed.
pub const REMOVED_REPLY: &'static str = "Items successfully removed";

/// A request to the store, on the grocery collection.
pub enum StoreRequest {
    /// Does the collection exist? Answered by `Exists`.
    CollectionExists,
    /// Create the collection. Answered by `Done`.
    CreateCollection,
    /// The names of the collection's indexes. Answered by `Names`.
    IndexNames,
    /// Create the uniqueness index on `ID_FIELD`. Answered by `Done`.
    CreateIdIndex,
    /// The items, of one category if given, sorted by category. Answered by `Items`.
    FindItems(Option<String>),
    /// All items, in any order. Answered by `Items`.
    FindAll,
    /// Insert one item. Answered by `Done`, or `Conflict` when its identifier
    /// is taken.
    Insert(GroceryItem),
    /// Delete the items with this identifier, leaving `without_id` of the
    /// list (none is fine). Answered by `Done`.
    DeleteId(u32),
}

/// The store's answer to a request.
pub enum StoreReply {
    Exists(bool),
    Done,
    Names(Vec<String>),
    Items(Vec<GroceryItem>),
    /// The insert broke the uniqueness of identifiers.
    Conflict,
    /// Any other failure, with its message.
    Failed(String),
}

/// What the session asks for next.
pub enum Step {
    /// A request to the store.
    Ask(StoreRequest),
    /// The command is over; the text is the reply.
    Finish(String),
}

/// Where a session stands: which request it waits on.
pub enum Stage {
    Exists,
    Create,
    Indexes,
    CreateIndex,
    Listing,
    Allocating,
    Inserting,
    Removing,
    Finished,
}

/// A grocery command under way.
pub struct GrocerySession {
    /// The parsed command.
    pub command: GroceryCommand,
    /// The request waited on.
    pub stage: Stage,
    /// The product line (for `add`) or the token (for `rem`) being handled.
    pub next: usize,
}

/// Whether some index name starts with the identifier field.
pub open spec fn has_id_index(names: Seq<String>) -> bool {
    exists|j: int| 0 <= j < names.len() && occurs_at(names[j]@, ID_FIELD@, 0)
}

/// Whether the collection already has its identifier index.
pub fn index_present(names: &Vec<String>) -> (r: bool)
    ensures
        r == has_id_index(names@),
{
    let mut j: usize = 0;
    while j < names.len()
        invariant
            j <= names@.len(),
            forall|i: int| 0 <= i < j ==> !occurs_at(names@[i]@, ID_FIELD@, 0),
        decreases names@.len() - j,
    {
        if text_at(names[j].as_str(), ID_FIELD, 0) {
            return true;
        }
        j = j + 1;
    }
    false
}

/// Sorts a failed insert's message: a broken uniqueness index is a conflict,
/// to be retried with a new identifier; anything else is a failure.
pub fn classify_insert_error(message: String) -> (r: StoreReply)
    ensures
        contains_text(message@, DUPLICATE_KEY_SIGNATURE@) ==> r is Conflict,
        !contains_text(message@, DUPLICATE_KEY_SIGNATURE@) ==> (r is Failed && r->Failed_0@
            == message@),
{
    if find_text(message.as_str(), DUPLICATE_KEY_SIGNATURE) {
        StoreReply::Conflict
    } else {
        StoreReply::Failed(message)
    }
}

/// The first product line at or after `j` that is not blank.
pub open spec fn next_product(lines: Seq<Seq<char>>, j: int) -> int
    decreases lines.len() - j,
{
    if 0 <= j < lines.len() && trimmed(lines[j]).len() == 0 {
        next_product(lines, j + 1)
    } else {
        j
    }
}

/// The item that inserting product line `j` with identifier `id` asks for.
pub open spec fn insert_of(c: GroceryCommand, j: int, id: u32, it: GroceryItem) -> bool {
    &&& it.category@ == c->category@
    &&& it.groid == id
    &&& it.product@ == texts(c->products@)[j]
}

/// The reply to an identifier token that is not a number: it names the
/// token, then the parser's reason `e`, then the help text.
pub open spec fn bad_number_text(token: Seq<char>, e: Seq<char>) -> Seq<char> {
    "Only numbers are allowed: "@ + token + " ("@ + e + ")\n"@ + GROCERY_HELP@
}

/// What the session does about `rem` token `j`, or after the last one.
pub open spec fn token_step(c: GroceryCommand, j: int, s: GrocerySession, step: Step) -> bool {
    let tokens = texts(c->Remove_0@);
    if j >= tokens.len() {
        s.stage is Finished && step is Finish && step->Finish_0@ == REMOVED_REPLY@
    } else if !u32_text(tokens[j]) {
        &&& s.stage is Finished
        &&& step is Finish
        &&& exists|e: Seq<char>| step->Finish_0@ == bad_number_text(tokens[j], e)
    } else {
        &&& s.stage is Removing
        &&& s.next == j
        &&& step is Ask
        &&& step->Ask_0 is DeleteId
        &&& step->Ask_0->DeleteId_0 as nat == digits_value(unsigned_digits(tokens[j]))
    }
}

/// What the session does about `add` product lines from `j` on.
pub open spec fn product_step(c: GroceryCommand, j: int, s: GrocerySession, step: Step) -> bool {
    let lines = texts(c->products@);
    let k = next_product(lines, j);
    if k >= lines.len() {
        s.stage is Finished && step is Finish && step->Finish_0@ == ADDED_REPLY@
    } else {
        s.stage is Allocating && s.next == k && step is Ask && step->Ask_0 is FindAll
    }
}

/// What the session does once the collection and its index are there.
pub open spec fn begin_step(c: GroceryCommand, s: GrocerySession, step: Step) -> bool {
    match c {
        GroceryCommand::List(f) => {
            &&& s.stage is Listing
            &&& step is Ask
            &&& step->Ask_0 is FindItems
            &&& opt_text(step->Ask_0->FindItems_0) == opt_text(f)
        },
        GroceryCommand::Add { .. } => product_step(c, 0, s, step),
        GroceryCommand::Remove(_) => token_step(c, 0, s, step),
        GroceryCommand::Help => s.stage is Finished && step is Finish && step->Finish_0@
            == GROCERY_HELP@,
    }
}

/// Whether `r` answers the request that stage `st` waits on.
pub open spec fn fits(st: Stage, r: StoreReply) -> bool {
    match r {
        StoreReply::Failed(_) => !(st is Finished),
        StoreReply::Exists(_) => st is Exists,
        StoreReply::Done => st is Create || st is CreateIndex || st is Inserting || st is Removing,
        StoreReply::Names(_) => st is Indexes,
        StoreReply::Items(_) => st is Listing || st is Allocating,
        StoreReply::Conflict => st is Inserting,
    }
}

/// The reply to a failed request, with the store's message `e`.
pub open spec fn failure_text(st: Stage, e: Seq<char>) -> Seq<char> {
    match st {
        Stage::Listing => "Error getting groceries: "@ + e,
        Stage::Allocating => "ERROR: "@ + e,
        _ => e,
    }
}

/// What `resume` does: from session `s1`, on store reply `r`, to session
/// `s2` and the next step.
pub open spec fn resume_spec(s1: GrocerySession, r: StoreReply, s2: GrocerySession, step: Step) -> bool {
    let c = s1.command;
    match r {
        StoreReply::Failed(e) => {
            &&& s2.stage is Finished
            &&& step is Finish
            &&& step->Finish_0@ == failure_text(s1.stage, e@)
        },
        StoreReply::Exists(true) => s2.stage is Indexes && step is Ask && step->Ask_0 is IndexNames,
        StoreReply::Exists(false) => {
            &&& s2.stage is Create
            &&& step is Ask
            &&& step->Ask_0 is CreateCollection
        },
        StoreReply::Done => match s1.stage {
            Stage::Create => s2.stage is Indexes && step is Ask && step->Ask_0 is IndexNames,
            Stage::CreateIndex => begin_step(c, s2, step),
            Stage::Inserting => product_step(c, s1.next + 1, s2, step),
            _ => token_step(c, s1.next + 1, s2, step),
        },
        StoreReply::Names(ns) => if has_id_index(ns@) {
            begin_step(c, s2, step)
        } else {
            s2.stage is CreateIndex && step is Ask && step->Ask_0 is CreateIdIndex
        },
        StoreReply::Items(items) => if s1.stage is Listing {
            &&& s2.stage is Finished
            &&& step is Finish
            &&& step->Finish_0@ == list_text(items@)
        } else if ids_exhausted(items@) {
            &&& s2.stage is Finished
            &&& step is Finish
            &&& step->Finish_0@ == "ERROR: "@ + ID_SPACE_FULL@
        } else {
            &&& s2.stage is Inserting
            &&& s2.next == s1.next
            &&& step is Ask
            &&& step->Ask_0 is Insert
            &&& least_free_id(items@, step->Ask_0->Insert_0.groid as int)
            &&& insert_of(c, s1.next as int, step->Ask_0->Insert_0.groid, step->Ask_0->Insert_0)
        },
        StoreReply::Conflict => {
            &&& s2.stage is Allocating
            &&& s2.next == s1.next
            &&& step is Ask
            &&& step->Ask_0 is FindAll
        },
    }
}

/// `prefix` followed by `rest`, as a new string.
fn joined(prefix: &str, rest: &str) -> (r: String)
    ensures
        r@ == prefix@ + rest@,
{
    let mut out = String::from_str(prefix);
    out.append(rest);
    out
}

impl GrocerySession {
    /// Whether the position fits the command.
    pub open spec fn wf(&self) -> bool {
        &&& (self.stage is Allocating || self.stage is Inserting) ==> {
            &&& self.command is Add
            &&& self.next < self.command->products@.len()
        }
        &&& self.stage is Removing ==> {
            &&& self.command is Remove
            &&& self.next < self.command->Remove_0@.len()
        }
        &&& self.stage is Listing ==> self.command is List
    }

    /// Starts a grocery command on what followed `gro` or `grocery`: the
    /// first request is whether the collection exists.
    pub fn start(rest: &str) -> (r: (GrocerySession, Step))
        ensures
            r.0.wf(),
            grocery_command_spec(rest@, r.0.command),
            r.0.stage is Exists,
            r.1 is Ask && r.1->Ask_0 is CollectionExists,
    {
        let command = parse_grocery_command(rest);
        (
            GrocerySession { command, stage: Stage::Exists, next: 0 },
            Step::Ask(StoreRequest::CollectionExists),
        )
    }

    /// Whether `reply` answers the request this session waits on.
    pub fn accepts(&self, reply: &StoreReply) -> (r: bool)
        ensures
            r == fits(self.stage, *reply),
    {
        let finished = match self.stage {
            Stage::Finished => true,
            _ => false,
        };
        match reply {
            StoreReply::Failed(_) => !finished,
            StoreReply::Exists(_) => match self.stage {
                Stage::Exists => true,
                _ => false,
            },
            StoreReply::Done => match self.stage {
                Stage::Create | Stage::CreateIndex | Stage::Inserting | Stage::Removing => true,
                _ => false,
            },
            StoreReply::Names(_) => match self.stage {
                Stage::Indexes => true,
                _ => false,
            },
            StoreReply::Items(_) => match self.stage {
                Stage::Listing | Stage::Allocating => true,
                _ => false,
            },
            StoreReply::Conflict => match self.stage {
                Stage::Inserting => true,
                _ => false,
            },
        }
    }

    /// How many product lines or tokens the command holds.
    fn part_count(&self) -> (n: usize)
        ensures
            self.command is Add ==> n == self.command->products@.len(),
            self.command is Remove ==> n == self.command->Remove_0@.len(),
    {
        match &self.command {
            GroceryCommand::Add { products, .. } => products.len(),
            GroceryCommand::Remove(tokens) => tokens.len(),
            _ => 0,
        }
    }

    /// Goes on with `rem` token `j`: reads it as an identifier and asks for
    /// its deletion; after the last token, finishes.
    fn take_token(&mut self, j: usize) -> (step: Step)
        requires
            old(self).command is Remove,
            j <= old(self).command->Remove_0@.len(),
        ensures
            final(self).command == old(self).command,
            final(self).wf(),
            token_step(final(self).command, j as int, *final(self), step),
    {
        let n = match &self.command {
            GroceryCommand::Remove(tokens) => tokens.len(),
            _ => 0,
        };
        if j >= n {
            self.stage = Stage::Finished;
            return Step::Finish(String::from_str(REMOVED_REPLY));
        }
        let token = match &self.command {
            GroceryCommand::Remove(tokens) => {
                assert(texts(tokens@)[j as int] == tokens@[j as int]@);
                tokens[j].clone()
            },
            _ => String::new(),
        };
        let parsed = parse_u32(token.as_str());
        match parsed {
            Ok(id) => {
                self.stage = Stage::Removing;
                self.next = j;
                Step::Ask(StoreRequest::DeleteId(id))
            },
            Err(e) => {
                self.stage = Stage::Finished;
                let mut text = joined("Only numbers are allowed: ", token.as_str());
                text.append(" (");
                text.append(e.as_str());
                text.append(")\n");
                text.append(GROCERY_HELP);
                assert(text@ =~= bad_number_text(token@, e@));
                Step::Finish(text)
            },
        }
    }

    /// Goes on with `add` product lines from `j`: skips blank lines and asks
    /// for the items, to allocate an identifier; after the last line, finishes.
    fn seek_product(&mut self, j: usize) -> (step: Step)
        requires
            old(self).command is Add,
            j <= old(self).command->products@.len(),
        ensures
            final(self).command == old(self).command,
            final(self).wf(),
            product_step(final(self).command, j as int, *final(self), step),
    {
        let ghost lines = texts(self.command->products@);
        let n = match &self.command {
            GroceryCommand::Add { products, .. } => products.len(),
            _ => 0,
        };
        let mut k = j;
        while k < n
            invariant
                n == lines.len(),
                j <= k <= n,
                self.command is Add,
                self.command == old(self).command,
                lines == texts(self.command->products@),
                next_product(lines, k as int) == next_product(lines, j as int),
            decreases n - k,
        {
            let blank = match &self.command {
                GroceryCommand::Add { products, .. } => trim_str(products[k].as_str()).unicode_len()
                    == 0,
                _ => false,
            };
            if !blank {
                self.stage = Stage::Allocating;
                self.next = k;
                return Step::Ask(StoreRequest::FindAll);
            }
            k = k + 1;
        }
        self.stage = Stage::Finished;
        Step::Finish(String::from_str(ADDED_REPLY))
    }

    /// Goes on once the collection and its index are there.
    fn begin(&mut self) -> (step: Step)
        ensures
            final(self).command == old(self).command,
            final(self).wf(),
            begin_step(final(self).command, *final(self), step),
    {
        match &self.command {
            GroceryCommand::List(f) => {
                let filter = match f {
                    Some(t) => Some(t.clone()),
                    None => None,
                };
                self.stage = Stage::Listing;
                Step::Ask(StoreRequest::FindItems(filter))
            },
            GroceryCommand::Add { .. } => self.seek_product(0),
            GroceryCommand::Remove(_) => self.take_token(0),
            GroceryCommand::Help => {
                self.stage = Stage::Finished;
                Step::Finish(String::from_str(GROCERY_HELP))
            },
        }
    }

    /// Takes the store's reply to the last request and says what comes next.
    pub fn resume(&mut self, reply: StoreReply) -> (step: Step)
        requires
            old(self).wf(),
            fits(old(self).stage, reply),
        ensures
            final(self).command == old(self).command,
            final(self).wf(),
            resume_spec(*old(self), reply, *final(self), step),
    {
        match reply {
            StoreReply::Failed(e) => {
                let text = match self.stage {
                    Stage::Listing => joined("Error getting groceries: ", e.as_str()),
                    Stage::Allocating => joined("ERROR: ", e.as_str()),
                    _ => e,
                };
                self.stage = Stage::Finished;
                Step::Finish(text)
            },
            StoreReply::Exists(true) => {
                self.stage = Stage::Indexes;
                Step::Ask(StoreRequest::IndexNames)
            },
            StoreReply::Exists(false) => {
                self.stage = Stage::Create;
                Step::Ask(StoreRequest::CreateCollection)
            },
            StoreReply::Done => match self.stage {
                Stage::Create => {
                    self.stage = Stage::Indexes;
                    Step::Ask(StoreRequest::IndexNames)
                },
                Stage::CreateIndex => self.begin(),
                Stage::Inserting => {
                    let count = self.part_count();
                    let j = if self.next < count {
                        self.next + 1
                    } else {
                        count
                    };
                    self.seek_product(j)
                },
                _ => {
                    let count = self.part_count();
                    let j = if self.next < count {
                        self.next + 1
                    } else {
                        count
                    };
                    self.take_token(j)
                },
            },
            StoreReply::Names(ns) => {
                if index_present(&ns) {
                    self.begin()
                } else {
                    self.stage = Stage::CreateIndex;
                    Step::Ask(StoreRequest::CreateIdIndex)
                }
            },
            StoreReply::Items(items) => {
                if let Stage::Listing = self.stage {
                    self.stage = Stage::Finished;
                    return Step::Finish(handle_list_request(&items));
                }
                match get_smallest_available_id(&items) {
                    Err(e) => {
                        self.stage = Stage::Finished;
                        Step::Finish(joined("ERROR: ", e.as_str()))
                    },
                    Ok(id) => {
                        let item = match &self.command {
                            GroceryCommand::Add { category, products } => GroceryItem {
                                category: category.clone(),
                                groid: id,
                                product: products[self.next].clone(),
                            },
                            _ => GroceryItem { category: String::new(), groid: id, product: String::new() },
                        };
                        self.stage = Stage::Inserting;
                        Step::Ask(StoreRequest::Insert(item))
                    },
                }
            },
            StoreReply::Conflict => {
                self.stage = Stage::Allocating;
                Step::Ask(StoreRequest::FindAll)
            },
        }
    }
}

/// Removal reports success once the last identifier's deletion is done,
/// whether or not any item carried it.
pub proof fn lemma_remove_reports_success(s1: GrocerySession, s2: GrocerySession, step: Step)
    requires
        s1.wf(),
        s1.stage is Removing,
        s1.next + 1 == s1.command->Remove_0@.len(),
        resume_spec(s1, StoreReply::Done, s2, step),
    ensures
        step is Finish,
        step->Finish_0@ == REMOVED_REPLY@,
{
    assert(texts(s1.command->Remove_0@).len() == s1.command->Remove_0@.len());
}

/// A `rem` token that is not a number ends the command with a reply that
/// names the token and holds the help text, and no deletion is asked for.
pub proof fn lemma_bad_token_no_delete(c: GroceryCommand, j: int, s: GrocerySession, step: Step)
    requires
        c is Remove,
        0 <= j < c->Remove_0@.len(),
        !u32_text(texts(c->Remove_0@)[j]),
        token_step(c, j, s, step),
    ensures
        step is Finish,
        s.stage is Finished,
        exists|e: Seq<char>|
            step->Finish_0@ == "Only numbers are allowed: "@ + texts(c->Remove_0@)[j] + " ("@ + e
                + ")\n"@ + GROCERY_HELP@,
{
}

/// `list` on an empty collection, or with a filter that no item matches,
/// replies exactly `List is empty`.
pub proof fn lemma_empty_list_reply(s1: GrocerySession, items: Vec<GroceryItem>, s2: GrocerySession, step: Step)
    requires
        s1.stage is Listing,
        items@.len() == 0,
        resume_spec(s1, StoreReply::Items(items), s2, step),
    ensures
        step is Finish,
        step->Finish_0@ == "List is empty"@,
{
}

} // verus!
