//! Facts about the document store that the bot needs before it starts.

use vstd::prelude::*;
use vstd::string::*;
use crate::text::same_text;

verus! {

/// The bot's database.
pub const DB_NAME: &'static str = "homechatbot_db";

/// The collection of configuration documents, among them the allow-list.
pub const CONFIG_COLLECTION_NAME: &'static str = "config";

/// The address the store is reached at, with its credentials.
pub open spec fn connection_spec(address: Seq<char>, username: Seq<char>, password: Seq<char>) -> Seq<char> {
    "mongodb://"@ + username + ":"@ + password + "@"@ + address + "/"@
}

/// Builds `mongodb://{username}:{password}@{address}/`.
pub fn connection_string(address: &str, username: &str, password: &str) -> (r: String)
    ensures
        r@ == connection_spec(address@, username@, password@),
{
    let mut s = String::from_str("mongodb://");
    s.append(username);
    s.append(":");
    s.append(password);
    s.append("@");
    s.append(address);
    s.append("/");
    assert(s@ =~= connection_spec(address@, username@, password@));
    s
}

/// Whether `name` is among `names` (a database or a collection listed by the store).
pub fn name_listed(names: &Vec<String>, name: &str) -> (r: bool)
    ensures
        r == exists|j: int| 0 <= j < names@.len() && (#[trigger] names@[j])@ == name@,
{
    let mut j: usize = 0;
    while j < names.len()
        invariant
            j <= names@.len(),
            forall|i: int| 0 <= i < j ==> (#[trigger] names@[i])@ != name@,
        decreases names@.len() - j,
    {
        if same_text(names[j].as_str(), name) {
            return true;
        }
        j = j + 1;
    }
    false
}

/// Whether a setting read at start-up has a value; an empty one counts as missing.
pub fn setting_given(value: &str) -> (r: bool)
    ensures
        r == (value@.len() > 0),
{
    value.unicode_len() > 0
}

} // verus!
