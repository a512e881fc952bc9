use homechatbot::grocery::{
    get_smallest_available_id, handle_list_request, parse_grocery_command, GroceryCommand,
    GroceryItem, GROCERY_HELP,
};
use homechatbot::session::{
    classify_insert_error, index_present, GrocerySession, Step, StoreReply, StoreRequest,
};

struct MemoryStore {
    exists: bool,
    indexes: Vec<String>,
    items: Vec<GroceryItem>,
    deletes: usize,
    inserts: usize,
    // An item that another writer slips in just before the next insert.
    intruder: Option<GroceryItem>,
    fail_find: Option<String>,
}

fn item(category: &str, groid: u32, product: &str) -> GroceryItem {
    GroceryItem { category: category.to_string(), groid, product: product.to_string() }
}

fn copy(it: &GroceryItem) -> GroceryItem {
    item(&it.category, it.groid, &it.product)
}

impl MemoryStore {
    fn ready() -> MemoryStore {
        MemoryStore {
            exists: true,
            indexes: vec!["_id_".to_string(), "groid_1".to_string()],
            items: vec![],
            deletes: 0,
            inserts: 0,
            intruder: None,
            fail_find: None,
        }
    }

    fn answer(&mut self, req: StoreRequest) -> StoreReply {
        match req {
            StoreRequest::CollectionExists => StoreReply::Exists(self.exists),
            StoreRequest::CreateCollection => {
                self.exists = true;
                StoreReply::Done
            }
            StoreRequest::IndexNames => StoreReply::Names(self.indexes.clone()),
            StoreRequest::CreateIdIndex => {
                self.indexes.push("groid_1".to_string());
                StoreReply::Done
            }
            StoreRequest::FindItems(filter) => {
                if let Some(e) = &self.fail_find {
                    return StoreReply::Failed(e.clone());
                }
                let mut found: Vec<GroceryItem> = self
                    .items
                    .iter()
                    .filter(|it| match &filter {
                        Some(c) => &it.category == c,
                        None => true,
                    })
                    .map(copy)
                    .collect();
                found.sort_by(|a, b| a.category.cmp(&b.category));
                StoreReply::Items(found)
            }
            StoreRequest::FindAll => StoreReply::Items(self.items.iter().map(copy).collect()),
            StoreRequest::Insert(it) => {
                if let Some(other) = self.intruder.take() {
                    self.items.push(other);
                }
                if self.items.iter().any(|x| x.groid == it.groid) {
                    return classify_insert_error(format!(
                        "Unable to insert items: E11000 duplicate key error collection: homechatbot_db.groceries index: groid_1 dup key: {{ groid: {} }}",
                        it.groid
                    ));
                }
                self.inserts += 1;
                self.items.push(it);
                StoreReply::Done
            }
            StoreRequest::DeleteId(id) => {
                self.deletes += 1;
                self.items.retain(|x| x.groid != id);
                StoreReply::Done
            }
        }
    }
}

fn run(store: &mut MemoryStore, rest: &str) -> String {
    let (mut session, mut step) = GrocerySession::start(rest);
    loop {
        match step {
            Step::Finish(text) => return text,
            Step::Ask(req) => {
                let reply = store.answer(req);
                assert!(session.accepts(&reply));
                step = session.resume(reply);
            }
        }
    }
}

fn ids(store: &MemoryStore) -> Vec<u32> {
    let mut v: Vec<u32> = store.items.iter().map(|x| x.groid).collect();
    v.sort();
    v
}

#[test]
fn add_then_list_round_trip() {
    let mut store = MemoryStore::ready();
    assert_eq!(run(&mut store, "add Dairy\nMilk\nEggs"), "Items successfully added!");
    let listed = run(&mut store, "list Dairy");
    assert!(listed.contains("Dairy:\n"));
    assert_eq!(listed, "Dairy:\n(1) Milk\n(2) Eggs\n");
}

#[test]
fn add_gives_smallest_free_ids() {
    let mut store = MemoryStore::ready();
    store.items.push(item("Fruit", 1, "Apple"));
    store.items.push(item("Fruit", 3, "Pear"));
    assert_eq!(run(&mut store, "add Bakery\nBread\nCake\nPie"), "Items successfully added!");
    assert_eq!(ids(&store), vec![1, 2, 3, 4, 5]);
    let bread = store.items.iter().find(|x| x.product == "Bread").unwrap();
    assert_eq!(bread.groid, 2);
    assert_eq!(bread.category, "Bakery");
}

#[test]
fn add_retries_after_conflict() {
    let mut store = MemoryStore::ready();
    store.intruder = Some(item("Other", 1, "Racer"));
    assert_eq!(run(&mut store, "add Dairy\nMilk"), "Items successfully added!");
    let milk = store.items.iter().find(|x| x.product == "Milk").unwrap();
    assert_eq!(milk.groid, 2);
    assert_eq!(store.inserts, 1);
}

#[test]
fn add_skips_blank_lines() {
    let mut store = MemoryStore::ready();
    assert_eq!(run(&mut store, "add Dairy\n\nMilk\n   \nEggs\n"), "Items successfully added!");
    assert_eq!(store.items.len(), 2);
    assert_eq!(run(&mut store, "list"), "Dairy:\n(1) Milk\n(2) Eggs\n");
}

#[test]
fn add_without_products_line_is_help() {
    let mut store = MemoryStore::ready();
    assert_eq!(run(&mut store, "add Dairy"), GROCERY_HELP);
    assert_eq!(run(&mut store, "add"), GROCERY_HELP);
    assert!(store.items.is_empty());
}

#[test]
fn add_fails_when_ids_run_out() {
    let mut store = MemoryStore::ready();
    for n in 1..10000u32 {
        store.items.push(item("Bulk", n, "thing"));
    }
    assert_eq!(run(&mut store, "add Dairy\nMilk"), "ERROR: Too many products in the database");
    assert_eq!(store.items.len(), 9999);
}

#[test]
fn remove_absent_id_still_succeeds() {
    let mut store = MemoryStore::ready();
    store.items.push(item("Dairy", 1, "Milk"));
    assert_eq!(run(&mut store, "rem 42"), "Items successfully removed");
    assert_eq!(ids(&store), vec![1]);
}

#[test]
fn remove_two_ids() {
    let mut store = MemoryStore::ready();
    run(&mut store, "add Dairy\nMilk\nEggs\nButter");
    assert_eq!(run(&mut store, "rem 1,3"), "Items successfully removed");
    let listed = run(&mut store, "list");
    assert!(!listed.contains("(1)"));
    assert!(!listed.contains("(3)"));
    assert_eq!(listed, "Dairy:\n(2) Eggs\n");
}

#[test]
fn remove_non_number_shows_help() {
    let mut store = MemoryStore::ready();
    store.items.push(item("Dairy", 1, "Milk"));
    let reply = run(&mut store, "rem abc");
    assert!(reply.starts_with("Only numbers are allowed: abc ("));
    assert!(reply.contains(GROCERY_HELP));
    assert_eq!(store.deletes, 0);
    assert_eq!(ids(&store), vec![1]);
}

#[test]
fn remove_stops_at_bad_token() {
    let mut store = MemoryStore::ready();
    run(&mut store, "add Dairy\nMilk\nEggs");
    let reply = run(&mut store, "rem 1,x,2");
    assert!(reply.starts_with("Only numbers are allowed: x ("));
    assert!(reply.contains(GROCERY_HELP));
    assert_eq!(ids(&store), vec![2]);
}

#[test]
fn remove_accepts_plus_sign() {
    let mut store = MemoryStore::ready();
    run(&mut store, "add Dairy\nMilk\nEggs");
    assert_eq!(run(&mut store, "rem +2"), "Items successfully removed");
    assert_eq!(ids(&store), vec![1]);
}

#[test]
fn list_groups_by_category() {
    let mut store = MemoryStore::ready();
    store.items.push(item("Fruit", 1, "Apple"));
    store.items.push(item("Dairy", 2, "Milk"));
    store.items.push(item("Fruit", 3, "Pear"));
    store.items.push(item("Bakery", 4, "Bread"));
    assert_eq!(
        run(&mut store, "list"),
        "Bakery:\n(4) Bread\nDairy:\n(2) Milk\nFruit:\n(1) Apple\n(3) Pear\n"
    );
}

#[test]
fn empty_category_gets_a_header() {
    let mut store = MemoryStore::ready();
    store.items.push(item("", 1, "x"));
    store.items.push(item("Dairy", 2, "Milk"));
    assert_eq!(run(&mut store, "list"), ":\n(1) x\nDairy:\n(2) Milk\n");
    assert_eq!(handle_list_request(&vec![item("", 1, "x")]), ":\n(1) x\n");
}

#[test]
fn list_empty() {
    let mut store = MemoryStore::ready();
    assert_eq!(run(&mut store, "list"), "List is empty");
    store.items.push(item("Dairy", 1, "Milk"));
    assert_eq!(run(&mut store, "list Fruit"), "List is empty");
}

#[test]
fn list_failure_is_reported() {
    let mut store = MemoryStore::ready();
    store.fail_find = Some("Unable to get cursor: down".to_string());
    assert_eq!(run(&mut store, "list"), "Error getting groceries: Unable to get cursor: down");
}

#[test]
fn sub_command_word_is_case_insensitive() {
    let mut store = MemoryStore::ready();
    store.items.push(item("Dairy", 7, "Milk"));
    assert_eq!(run(&mut store, "LiSt"), "Dairy:\n(7) Milk\n");
}

#[test]
fn unknown_sub_command_is_help() {
    let mut store = MemoryStore::ready();
    assert_eq!(run(&mut store, "buy milk"), GROCERY_HELP);
    assert_eq!(run(&mut store, "rem"), GROCERY_HELP);
    assert_eq!(run(&mut store, "list, x"), GROCERY_HELP);
    assert_eq!(run(&mut store, ""), GROCERY_HELP);
}

#[test]
fn collection_and_index_are_created_when_missing() {
    let mut store = MemoryStore::ready();
    store.exists = false;
    store.indexes = vec!["_id_".to_string()];
    assert_eq!(run(&mut store, "list"), "List is empty");
    assert!(store.exists);
    assert!(store.indexes.iter().any(|n| n == "groid_1"));
}

#[test]
fn smallest_available_id_direct() {
    let items = vec![item("a", 2, "x"), item("a", 1, "y"), item("a", 4, "z")];
    assert_eq!(get_smallest_available_id(&items), Ok(3));
    assert_eq!(get_smallest_available_id(&vec![]), Ok(1));
}

#[test]
fn list_rendering_direct() {
    let items = vec![item("Dairy", 10, "Milk"), item("Dairy", 123, "Eggs")];
    assert_eq!(handle_list_request(&items), "Dairy:\n(10) Milk\n(123) Eggs\n");
    assert_eq!(handle_list_request(&vec![]), "List is empty");
}

#[test]
fn insert_errors_are_sorted() {
    assert!(matches!(
        classify_insert_error("x E11000 duplicate key error collection: y".to_string()),
        StoreReply::Conflict
    ));
    match classify_insert_error("Unable to insert items: timeout".to_string()) {
        StoreReply::Failed(m) => assert_eq!(m, "Unable to insert items: timeout"),
        _ => panic!("expected a failure"),
    }
}

#[test]
fn index_presence() {
    assert!(index_present(&vec!["_id_".to_string(), "groid_1".to_string()]));
    assert!(!index_present(&vec!["_id_".to_string(), "xgroid".to_string()]));
}

#[test]
fn parse_add_keeps_category_and_lines() {
    match parse_grocery_command("add\tDairy products\nMilk\n\nEggs") {
        GroceryCommand::Add { category, products } => {
            assert_eq!(category, "Dairy products");
            assert_eq!(products, vec!["Milk".to_string(), "".to_string(), "Eggs".to_string()]);
        }
        _ => panic!("expected add"),
    }
    match parse_grocery_command("rem 1, 2") {
        GroceryCommand::Remove(t) => assert_eq!(t, vec!["1".to_string(), " 2".to_string()]),
        _ => panic!("expected rem"),
    }
}
