use compilation_session::config::{LanguageFeatures, PackageType, Profile};
use compilation_session::session::{BatchOutput, Compilation};
use compilation_session::source_map::SourceMap;
use compilation_session::store::{CompileUnit, Item, ItemId, Package, PackageStore, Res, Ty};

fn item(name: &str) -> Item {
    Item { name: name.as_bytes().to_vec() }
}

fn unit_with_items(names: &[&str]) -> CompileUnit {
    CompileUnit {
        package: Package { items: names.iter().map(|name| item(name)).collect() },
        tys: Vec::new(),
        names: Vec::new(),
        sources: SourceMap { sources: Vec::new() },
    }
}

fn entry(name: &str, text: &str) -> (Vec<u8>, Vec<u8>) {
    (name.as_bytes().to_vec(), text.as_bytes().to_vec())
}

/// A session whose standard library declares `AbsI` and whose user source is
/// a single function with a division by a literal zero, calling the library
/// function; the front end reported it clean, with the call's node resolved
/// into the standard-library package.
fn math_session() -> Compilation {
    Compilation::new(
        &vec![entry(
            "main",
            "function Main() : Int { let x = 1000 / 0; Microsoft.Quantum.Math.AbsI(-1000) }",
        )],
        PackageType::Exe,
        Profile::Unrestricted,
        LanguageFeatures { flags: 0 },
        &Vec::new(),
        BatchOutput {
            core_unit: unit_with_items(&["Length"]),
            std_unit: unit_with_items(&["AbsI", "SignI"]),
            user_package: Package { items: vec![item("Main")] },
            user_tys: vec![Some(Ty { code: 1 })],
            user_names: vec![Some(Res::Item(ItemId { package: Some(1), item: 0 }))],
            compile_errors: Vec::new(),
            lint_findings: Vec::new(),
            capability_findings: Vec::new(),
        },
    )
}

#[test]
fn clean_compile_yields_single_diagnostic_free_user_package() {
    let session = math_session();
    assert!(session.errors.is_empty());
    assert_eq!(session.user_package_id, 2);
    let unit = session.user_unit();
    assert_eq!(unit.package.items.len(), 1);
    assert_eq!(unit.package.items[0].name, b"Main".to_vec());
}

#[test]
fn library_call_resolves_into_standard_library_package() {
    let session = math_session();
    // The call's node resolved to an item reference into the standard
    // library; follow it the way a hover or go-to-definition query would.
    let res = session.get_res(0).expect("node 0 should be resolved");
    let (resolved, item_id) = session.resolve_item_res(session.user_package_id, &res);
    assert_eq!(resolved.name, b"AbsI".to_vec());
    assert_eq!(item_id.package, Some(1));
    assert_eq!(item_id.item, 0);
}

#[test]
fn absolute_and_relative_references_resolve_to_the_same_item() {
    let session = math_session();
    let absolute = ItemId { package: Some(1), item: 0 };
    let relative = ItemId { package: None, item: 0 };
    // The absolute reference resolves the same from the user package and
    // from the core package; the relative one, originating from the standard
    // library itself, lands on the same item.
    let (from_user, _, normalized_a) = session.resolve_item(2, &absolute);
    let (from_core, _, normalized_b) = session.resolve_item(0, &absolute);
    let (from_std, _, normalized_c) = session.resolve_item(1, &relative);
    assert_eq!(from_user.name, b"AbsI".to_vec());
    assert_eq!(from_core.name, b"AbsI".to_vec());
    assert_eq!(from_std.name, b"AbsI".to_vec());
    assert_eq!(normalized_a, ItemId { package: Some(1), item: 0 });
    assert_eq!(normalized_b, normalized_a);
    assert_eq!(normalized_c, normalized_a);
}

#[test]
fn relative_reference_stays_in_originating_package() {
    let session = math_session();
    let relative = ItemId { package: None, item: 0 };
    let (in_user, _, normalized) = session.resolve_item_relative_to_user_package(&relative);
    assert_eq!(in_user.name, b"Main".to_vec());
    assert_eq!(normalized, ItemId { package: Some(2), item: 0 });
}

#[test]
fn annotation_lookups_tolerate_missing_nodes() {
    let session = math_session();
    assert_eq!(session.get_ty(0), Some(Ty { code: 1 }));
    assert_eq!(session.get_ty(99), None);
    assert_eq!(session.get_res(99), None);
}

#[test]
fn package_store_assigns_dense_identifiers() {
    let mut store = PackageStore::new(unit_with_items(&["core"]));
    let first = store.insert(unit_with_items(&["std"]));
    let second = store.insert(unit_with_items(&["user"]));
    assert_eq!(first, 1);
    assert_eq!(second, 2);
    assert!(store.get(2).is_some());
    assert!(store.get(3).is_none());
    assert_eq!(store.get(1).unwrap().package.items[0].name, b"std".to_vec());
}
