use sqlite_native_runtime::error::{snr_last_error, snr_last_error_copy};
use sqlite_native_runtime::error::ErrorSlot;
use sqlite_native_runtime::runtime::{
    checkpoint_mode_keyword, memory_path, named_command, open_flags, pack_checkpoint,
    quote_identifier, snr_checkpoint_full, snr_checkpoint_passive, snr_checkpoint_restart,
    snr_checkpoint_truncate, snr_flag_create, snr_flag_readonly, snr_flag_readwrite,
    NameArg, SNR_DONE, SNR_ERROR, SNR_OPEN_READONLY, SNR_ROW, SNR_TYPE_BLOB, SNR_TYPE_FLOAT,
    SNR_TYPE_INTEGER, SNR_TYPE_NULL, SNR_TYPE_TEXT,
};
use rusqlite::ffi;

#[test]
fn flag_constants_match_sqlite_values() {
    assert_eq!(snr_flag_readonly(), ffi::SQLITE_OPEN_READONLY as i32);
    assert_eq!(snr_flag_readwrite(), ffi::SQLITE_OPEN_READWRITE as i32);
    assert_eq!(snr_flag_create(), ffi::SQLITE_OPEN_CREATE as i32);
}

#[test]
fn checkpoint_mode_constants_match_sqlite() {
    assert_eq!(snr_checkpoint_passive(), ffi::SQLITE_CHECKPOINT_PASSIVE as i32);
    assert_eq!(snr_checkpoint_full(), ffi::SQLITE_CHECKPOINT_FULL as i32);
    assert_eq!(snr_checkpoint_restart(), ffi::SQLITE_CHECKPOINT_RESTART as i32);
    assert_eq!(snr_checkpoint_truncate(), ffi::SQLITE_CHECKPOINT_TRUNCATE as i32);
}

#[test]
fn abi_open_flags_are_distinct() {
    let (ro, rw, cr) = (snr_flag_readonly(), snr_flag_readwrite(), snr_flag_create());
    assert_ne!(ro, rw);
    assert_ne!(ro, cr);
    assert_ne!(rw, cr);
    assert_eq!(ro & rw & cr, 0);
}

#[test]
fn abi_checkpoint_modes_are_distinct_and_ordered() {
    assert!(snr_checkpoint_passive() < snr_checkpoint_full());
    assert!(snr_checkpoint_full() < snr_checkpoint_restart());
    assert!(snr_checkpoint_restart() < snr_checkpoint_truncate());
}

#[test]
fn step_result_constants_have_fixed_values() {
    assert_eq!(SNR_ROW, 1, "SNR_ROW debe ser 1");
    assert_eq!(SNR_DONE, 0, "SNR_DONE debe ser 0");
    assert_eq!(SNR_ERROR, -1, "SNR_ERROR debe ser -1");
}

#[test]
fn column_type_codes_match_sqlite() {
    assert_eq!(SNR_TYPE_INTEGER, ffi::SQLITE_INTEGER);
    assert_eq!(SNR_TYPE_FLOAT, ffi::SQLITE_FLOAT);
    assert_eq!(SNR_TYPE_TEXT, ffi::SQLITE_TEXT);
    assert_eq!(SNR_TYPE_BLOB, ffi::SQLITE_BLOB);
    assert_eq!(SNR_TYPE_NULL, ffi::SQLITE_NULL);
}

#[test]
fn open_flags_force_mutex_and_nofollow() {
    let full = ffi::SQLITE_OPEN_FULLMUTEX as i32;
    let nofollow = ffi::SQLITE_OPEN_NOFOLLOW as i32;
    let default = open_flags(0);
    assert_eq!(
        default,
        (ffi::SQLITE_OPEN_READWRITE | ffi::SQLITE_OPEN_CREATE) as i32 | full | nofollow
    );
    let ro = open_flags(SNR_OPEN_READONLY);
    assert_eq!(ro, ffi::SQLITE_OPEN_READONLY as i32 | full | nofollow);
    let junk = open_flags(ffi::SQLITE_OPEN_DELETEONCLOSE as i32 | ffi::SQLITE_OPEN_READWRITE as i32);
    assert_eq!(junk, ffi::SQLITE_OPEN_READWRITE as i32 | full | nofollow);
}

#[test]
fn memory_paths() {
    assert_eq!(memory_path(NameArg::Absent).unwrap(), ":memory:");
    assert_eq!(
        memory_path(NameArg::Given("shared_db-1")).unwrap(),
        "file:shared_db-1?mode=memory&cache=shared"
    );
    assert_eq!(
        memory_path(NameArg::Given("bad?param=evil")).unwrap_err(),
        "snr_open_memory: name inválido — solo [A-Za-z0-9_-] permitido"
    );
    assert_eq!(
        memory_path(NameArg::Unreadable).unwrap_err(),
        "snr_open_memory: name no es UTF-8 válido"
    );
}

#[test]
fn identifiers_are_quoted_and_escaped() {
    assert_eq!(quote_identifier("sp1"), "\"sp1\"");
    assert_eq!(quote_identifier("x\" ; DROP TABLE items; --"), "\"x\"\" ; DROP TABLE items; --\"");
    assert_eq!(named_command("SAVEPOINT", "a\"b"), "SAVEPOINT \"a\"\"b\"");
}

#[test]
fn checkpoint_keywords_and_packing() {
    assert_eq!(checkpoint_mode_keyword(0), Some("PASSIVE"));
    assert_eq!(checkpoint_mode_keyword(3), Some("TRUNCATE"));
    assert_eq!(checkpoint_mode_keyword(4), None);
    let packed = pack_checkpoint(7, 5);
    assert_eq!((packed >> 32) as i32, 7);
    assert_eq!((packed & 0xFFFF_FFFF) as i32, 5);
    let packed = pack_checkpoint(-1, -1);
    assert_eq!((packed >> 32) as i32, -1);
    assert_eq!((packed & 0xFFFF_FFFF) as i32, -1);
}

#[test]
fn last_error_initially_null() {
    let e = ErrorSlot::new();
    assert!(e.last_error().is_none());
}

#[test]
fn set_and_read_error() {
    let mut e = ErrorSlot::new();
    e.set("error de prueba");
    assert_eq!(e.last_error(), Some("error de prueba"));
}

#[test]
fn clear_resets_error() {
    let mut e = ErrorSlot::new();
    e.set("algo");
    e.clear();
    assert!(e.last_error().is_none());
}

#[test]
fn last_error_copy_null_when_no_error() {
    let e = ErrorSlot::new();
    assert!(e.last_error_copy().is_none());
}

#[test]
fn last_error_copy_returns_owned_string() {
    let mut e = ErrorSlot::new();
    e.set("copia heap");
    assert_eq!(e.last_error_copy(), Some("copia heap".to_string()));
}

#[test]
fn last_error_copy_is_independent() {
    let mut e = ErrorSlot::new();
    e.set("copia independiente");
    let copy = e.last_error_copy().unwrap();
    e.clear();
    assert!(e.last_error().is_none());
    assert_eq!(copy, "copia independiente");
}

#[test]
fn set_error_with_interior_nul_truncates() {
    let mut e = ErrorSlot::new();
    e.set("antes\0despues");
    assert_eq!(e.last_error(), Some("antes"));
}

#[test]
fn set_error_empty_string() {
    let mut e = ErrorSlot::new();
    e.set("");
    assert_eq!(e.last_error(), Some(""));
}

#[test]
fn set_error_overrides_previous() {
    let mut e = ErrorSlot::new();
    e.set("primero");
    e.set("segundo");
    assert_eq!(e.last_error(), Some("segundo"));
}

#[test]
fn last_error_free_functions_read_the_slot() {
    let mut err = ErrorSlot::new();
    assert_eq!(snr_last_error(&err), None);
    assert_eq!(snr_last_error_copy(&err), None);
    err.set("antes\0despues");
    assert_eq!(snr_last_error(&err), Some("antes"));
    assert_eq!(snr_last_error_copy(&err).as_deref(), Some("antes"));
}
