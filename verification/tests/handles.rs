use ib_everything_ext::app::App;
use ib_everything_ext::config::Config;
use ib_everything_ext::handles::Handle;
use ib_everything_ext::handles::HandleError;
use ib_everything_ext::handles::HandleTable;
use ib_everything_ext::search::Regmatch;

const UNTOUCHED: Regmatch = Regmatch { rm_so: -7, rm_eo: -9 };

fn default_app() -> App<()> {
    App::new(Some(Config::default()), None, None, None)
}

#[test]
fn table_compile_exec_free() {
    let app = default_app();
    let mut table = HandleTable::new();
    let handle = table.compile(&app, b"abc", 0, 0);
    let mut slot = UNTOUCHED;
    assert_eq!(table.exec(handle, b"xabcx", 1, &mut slot, 0), Ok(1));
    assert_eq!(slot, Regmatch { rm_so: 1, rm_eo: 4 });
    let mut slot = UNTOUCHED;
    assert_eq!(table.exec(handle, b"xyz", 1, &mut slot, 0), Ok(-1));
    assert_eq!(slot, UNTOUCHED);
    assert_eq!(table.exec(handle, b"xabcx", 0, &mut slot, 0), Ok(0));
    assert_eq!(slot, UNTOUCHED);
    assert_eq!(table.free(handle), Ok(()));
}

#[test]
fn table_compile_then_free_leaves_nothing() {
    let app = default_app();
    let mut table = HandleTable::new();
    let handle = table.compile(&app, b"abc", 0, 0);
    assert!(table.get(handle).is_ok());
    assert_eq!(table.free(handle), Ok(()));
    assert_eq!(table.get(handle).err(), Some(HandleError::Freed));
}

#[test]
fn table_use_after_free_is_turned_down() {
    let app = default_app();
    let mut table = HandleTable::new();
    let handle = table.compile(&app, b"abc", 0, 0);
    assert_eq!(table.free(handle), Ok(()));
    let mut slot = UNTOUCHED;
    assert_eq!(table.exec(handle, b"xabcx", 1, &mut slot, 0), Err(HandleError::Freed));
    assert_eq!(slot, UNTOUCHED);
}

#[test]
fn table_double_free_is_turned_down() {
    let app = default_app();
    let mut table = HandleTable::new();
    let handle = table.compile(&app, b"abc", 0, 0);
    assert_eq!(table.free(handle), Ok(()));
    assert_eq!(table.free(handle), Err(HandleError::Freed));
}

#[test]
fn table_unknown_handle_is_turned_down() {
    let mut table = HandleTable::new();
    let unknown = Handle { slot: 3, generation: 1 };
    let mut slot = UNTOUCHED;
    assert_eq!(table.exec(unknown, b"abc", 1, &mut slot, 0), Err(HandleError::Unknown));
    assert_eq!(slot, UNTOUCHED);
    assert_eq!(table.free(unknown), Err(HandleError::Unknown));
    assert_eq!(table.get(unknown).err(), Some(HandleError::Unknown));
}

#[test]
fn table_handle_of_a_later_generation_is_unknown() {
    let app = default_app();
    let mut table = HandleTable::new();
    let handle = table.compile(&app, b"abc", 0, 0);
    let later = Handle { slot: handle.slot, generation: handle.generation + 1 };
    let mut slot = UNTOUCHED;
    assert_eq!(table.exec(later, b"abc", 1, &mut slot, 0), Err(HandleError::Unknown));
    assert_eq!(table.free(later), Err(HandleError::Unknown));
    assert_eq!(table.exec(handle, b"abc", 1, &mut slot, 0), Ok(1));
}

#[test]
fn table_lets_a_slot_again_under_a_new_generation() {
    let app = default_app();
    let mut table = HandleTable::new();
    let first = table.compile(&app, b"abc", 0, 0);
    assert_eq!(first, Handle { slot: 0, generation: 1 });
    assert_eq!(table.free(first), Ok(()));
    let second = table.compile(&app, b"xyz", 0, 0);
    assert_eq!(second, Handle { slot: 0, generation: 2 });

    let mut slot = UNTOUCHED;
    assert_eq!(table.exec(first, b"abc", 1, &mut slot, 0), Err(HandleError::Freed));
    assert_eq!(table.exec(second, b"abc", 1, &mut slot, 0), Ok(-1));
    assert_eq!(table.exec(second, b"wxyz", 1, &mut slot, 0), Ok(1));
    assert_eq!(slot, Regmatch { rm_so: 1, rm_eo: 4 });
    assert_eq!(table.free(first), Err(HandleError::Freed));
    assert_eq!(table.free(second), Ok(()));
}

#[test]
fn table_keeps_engines_apart() {
    let app = default_app();
    let mut table = HandleTable::new();
    let abc = table.compile(&app, b"abc", 0, 0);
    let xyz = table.compile(&app, b"xyz", 0, 0);
    assert_eq!(abc, Handle { slot: 0, generation: 1 });
    assert_eq!(xyz, Handle { slot: 1, generation: 1 });
    assert_eq!(table.free(abc), Ok(()));
    let mut slot = UNTOUCHED;
    assert_eq!(table.exec(xyz, b"abcxyz", 1, &mut slot, 0), Ok(1));
    assert_eq!(slot, Regmatch { rm_so: 3, rm_eo: 6 });
    let again = table.compile(&app, b"abc", 0, 0);
    assert_eq!(again, Handle { slot: 0, generation: 2 });
    assert_eq!(table.exec(again, b"abcxyz", 1, &mut slot, 0), Ok(1));
    assert_eq!(slot, Regmatch { rm_so: 0, rm_eo: 3 });
}

#[test]
fn table_never_issues_generation_zero() {
    let app = default_app();
    let mut table = HandleTable::new();
    let handle = table.compile(&app, b"abc", 0, 0);
    let zero = Handle { slot: handle.slot, generation: 0 };
    let mut slot = UNTOUCHED;
    assert_eq!(table.exec(zero, b"abc", 1, &mut slot, 0), Err(HandleError::Unknown));
    assert_eq!(table.free(zero), Err(HandleError::Unknown));
    assert_eq!(table.free(handle), Ok(()));
    assert_eq!(table.free(zero), Err(HandleError::Unknown));
}

#[test]
fn handle_as_a_word() {
    assert_eq!(Handle { slot: 0, generation: 1 }.to_word(), Some(0x1_0000_0000));
    assert_eq!(Handle { slot: 7, generation: 3 }.to_word(), Some(0x3_0000_0007));
    assert_eq!(
        Handle { slot: 0xffff_ffff, generation: 0xffff_ffff }.to_word(),
        Some(0xffff_ffff_ffff_ffff)
    );
    assert_eq!(Handle { slot: 0, generation: 0 }.to_word(), Some(0));
}

#[test]
fn handle_too_large_for_a_word() {
    assert_eq!(Handle { slot: 0, generation: 0x1_0000_0000 }.to_word(), None);
    assert_eq!(Handle { slot: 0x1_0000_0000, generation: 1 }.to_word(), None);
}

#[test]
fn handle_from_a_word() {
    assert_eq!(Handle::from_word(0), Handle { slot: 0, generation: 0 });
    assert_eq!(Handle::from_word(0x1_0000_0000), Handle { slot: 0, generation: 1 });
    assert_eq!(Handle::from_word(0x3_0000_0007), Handle { slot: 7, generation: 3 });
    assert_eq!(
        Handle::from_word(0xffff_ffff_ffff_ffff),
        Handle { slot: 0xffff_ffff, generation: 0xffff_ffff }
    );
}

#[test]
fn handle_word_round_trip() {
    let app = default_app();
    let mut table = HandleTable::new();
    for _ in 0..5 {
        let handle = table.compile(&app, b"abc", 0, 0);
        let word = handle.to_word().unwrap();
        assert_ne!(word, 0);
        assert_eq!(Handle::from_word(word), handle);
        assert_eq!(table.free(Handle::from_word(word)), Ok(()));
    }
}

#[test]
fn table_compiles_a_pattern_whose_fold_changes_width() {
    let app = default_app();
    let mut table = HandleTable::new();
    let handle = table.compile(&app, "\u{212a}ab".as_bytes(), 0, 0);
    let mut slot = UNTOUCHED;
    assert_eq!(table.exec(handle, b"xkab", 1, &mut slot, 0), Ok(1));
    assert_eq!(slot, Regmatch { rm_so: 1, rm_eo: 4 });
    assert_eq!(table.free(handle), Ok(()));
}
