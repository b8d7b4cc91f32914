//! The rules of the SQLite runtime's C interface that do not touch a
//! database: open flags, in-memory names, identifier quoting, result codes,
//! checkpoint modes and the packed checkpoint result.
use vstd::prelude::*;
use crate::text::{chars_of, push_chars, push_str, string_from_chars};

verus! {

/// `SQLITE_OPEN_READONLY`.
pub const SNR_OPEN_READONLY: i32 = 0x1;
/// `SQLITE_OPEN_READWRITE`.
pub const SNR_OPEN_READWRITE: i32 = 0x2;
/// `SQLITE_OPEN_CREATE`.
pub const SNR_OPEN_CREATE: i32 = 0x4;
/// `SQLITE_OPEN_URI`.
pub const SNR_OPEN_URI: i32 = 0x40;
/// `SQLITE_OPEN_FULLMUTEX`: serialized threading mode.
pub const SNR_OPEN_FULLMUTEX: i32 = 0x10000;
/// `SQLITE_OPEN_NOFOLLOW`: symbolic links are refused.
pub const SNR_OPEN_NOFOLLOW: i32 = 0x1000000;
/// The open flags a caller may ask for; every other bit is ignored.
pub const SNR_ALLOWED_FLAGS: i32 = 0x1000047;

/// Column type codes, as SQLite numbers them.
pub const SNR_TYPE_INTEGER: i32 = 1;
pub const SNR_TYPE_FLOAT: i32 = 2;
pub const SNR_TYPE_TEXT: i32 = 3;
pub const SNR_TYPE_BLOB: i32 = 4;
pub const SNR_TYPE_NULL: i32 = 5;

/// Results of one step of a statement.
pub const SNR_ROW: i32 = 1;
pub const SNR_DONE: i32 = 0;
pub const SNR_ERROR: i32 = -1;

/// WAL checkpoint modes, as SQLite numbers them.
pub const SNR_CHECKPOINT_PASSIVE: i32 = 0;
pub const SNR_CHECKPOINT_FULL: i32 = 1;
pub const SNR_CHECKPOINT_RESTART: i32 = 2;
pub const SNR_CHECKPOINT_TRUNCATE: i32 = 3;

pub fn snr_flag_readonly() -> (f: i32)
    ensures
        f == SNR_OPEN_READONLY,
{
    SNR_OPEN_READONLY
}

pub fn snr_flag_readwrite() -> (f: i32)
    ensures
        f == SNR_OPEN_READWRITE,
{
    SNR_OPEN_READWRITE
}

pub fn snr_flag_create() -> (f: i32)
    ensures
        f == SNR_OPEN_CREATE,
{
    SNR_OPEN_CREATE
}

pub fn snr_checkpoint_passive() -> (m: i32)
    ensures
        m == SNR_CHECKPOINT_PASSIVE,
{
    SNR_CHECKPOINT_PASSIVE
}

pub fn snr_checkpoint_full() -> (m: i32)
    ensures
        m == SNR_CHECKPOINT_FULL,
{
    SNR_CHECKPOINT_FULL
}

pub fn snr_checkpoint_restart() -> (m: i32)
    ensures
        m == SNR_CHECKPOINT_RESTART,
{
    SNR_CHECKPOINT_RESTART
}

pub fn snr_checkpoint_truncate() -> (m: i32)
    ensures
        m == SNR_CHECKPOINT_TRUNCATE,
{
    SNR_CHECKPOINT_TRUNCATE
}

/// The flags with which a file database is opened for the caller's `flags`:
/// `0` means read-write, create, serialized and no symbolic links; any other
/// value keeps only the allowed bits and always adds serialized mode and
/// the refusal of symbolic links.
pub open spec fn open_flags_spec(flags: i32) -> i32 {
    if flags == 0 {
        SNR_OPEN_READWRITE | SNR_OPEN_CREATE | SNR_OPEN_FULLMUTEX | SNR_OPEN_NOFOLLOW
    } else {
        (flags & SNR_ALLOWED_FLAGS) | SNR_OPEN_FULLMUTEX | SNR_OPEN_NOFOLLOW
    }
}

/// The flags with which a file database is opened for the caller's `flags`.
pub fn open_flags(flags: i32) -> (f: i32)
    ensures
        f == open_flags_spec(flags),
{
    if flags == 0 {
        SNR_OPEN_READWRITE | SNR_OPEN_CREATE | SNR_OPEN_FULLMUTEX | SNR_OPEN_NOFOLLOW
    } else {
        (flags & SNR_ALLOWED_FLAGS) | SNR_OPEN_FULLMUTEX | SNR_OPEN_NOFOLLOW
    }
}

/// Whatever the caller asks for, a file database is opened in serialized
/// mode, refusing symbolic links, and with no flag outside the allowed set;
/// the caller's access, creation and URI bits are kept as asked.
pub proof fn lemma_open_flags_forced(flags: i32)
    ensures
        flags != 0 ==> open_flags_spec(flags) & (SNR_OPEN_READONLY | SNR_OPEN_READWRITE | SNR_OPEN_CREATE | SNR_OPEN_URI)
            == flags & (SNR_OPEN_READONLY | SNR_OPEN_READWRITE | SNR_OPEN_CREATE | SNR_OPEN_URI),
        open_flags_spec(flags) & SNR_OPEN_FULLMUTEX == SNR_OPEN_FULLMUTEX,
        open_flags_spec(flags) & SNR_OPEN_NOFOLLOW == SNR_OPEN_NOFOLLOW,
        open_flags_spec(flags) & !(SNR_ALLOWED_FLAGS | SNR_OPEN_FULLMUTEX) == 0,
{
    let f = open_flags_spec(flags);
    if flags == 0 {
        assert((2i32 | 4i32 | 0x10000i32 | 0x1000000i32) == 0x1010006i32) by (bit_vector);
        assert(f == 0x1010006);
        assert(0x1010006i32 & 0x10000i32 == 0x10000i32) by (bit_vector);
        assert(0x1010006i32 & 0x1000000i32 == 0x1000000i32) by (bit_vector);
        assert(0x1010006i32 & !(0x1000047i32 | 0x10000i32) == 0) by (bit_vector);
    } else {
        assert(f == (flags & 0x1000047i32) | 0x10000i32 | 0x1000000i32);
        assert(((flags & 0x1000047i32) | 0x10000i32 | 0x1000000i32) & 0x10000i32 == 0x10000i32) by (bit_vector);
        assert(((flags & 0x1000047i32) | 0x10000i32 | 0x1000000i32) & 0x1000000i32 == 0x1000000i32) by (bit_vector);
        assert(((flags & 0x1000047i32) | 0x10000i32 | 0x1000000i32) & !(0x1000047i32 | 0x10000i32) == 0) by (bit_vector);
        assert((1i32 | 2i32 | 4i32 | 0x40i32) == 0x47i32) by (bit_vector);
        assert(((flags & 0x1000047i32) | 0x10000i32 | 0x1000000i32) & 0x47i32 == flags & 0x47i32) by (bit_vector);
    }
}

/// The flags of an in-memory database: read-write, create, serialized, URI names.
pub open spec fn memory_flags_spec() -> i32 {
    SNR_OPEN_READWRITE | SNR_OPEN_CREATE | SNR_OPEN_FULLMUTEX | SNR_OPEN_URI
}

/// How a C string argument arrived.
pub enum NameArg<'a> {
    /// A null pointer.
    Absent,
    /// Bytes that are not UTF-8.
    Unreadable,
    /// UTF-8 text.
    Given(&'a str),
}

/// Whether `c` may appear in the name of a shared in-memory database.
pub open spec fn memory_name_char(c: char) -> bool {
    ('a' <= c && c <= 'z') || ('A' <= c && c <= 'Z') || ('0' <= c && c <= '9') || c == '_' || c == '-'
}

/// The path that opens the in-memory database `name`, or the message that
/// refuses it: no name opens a private database; a name opens a shared one
/// and may only use `[A-Za-z0-9_-]`.
pub open spec fn memory_path_spec(name: Option<Option<Seq<char>>>) -> Result<Seq<char>, Seq<char>> {
    match name {
        None => Ok(":memory:"@),
        Some(None) => Err("snr_open_memory: name no es UTF-8 válido"@),
        Some(Some(n)) => if forall|i: int| 0 <= i < n.len() ==> memory_name_char(#[trigger] n[i]) {
            Ok("file:"@ + n + "?mode=memory&cache=shared"@)
        } else {
            Err("snr_open_memory: name inválido — solo [A-Za-z0-9_-] permitido"@)
        },
    }
}

/// The argument as `memory_path_spec` reads it.
pub open spec fn name_arg_view(name: NameArg) -> Option<Option<Seq<char>>> {
    match name {
        NameArg::Absent => None,
        NameArg::Unreadable => Some(None),
        NameArg::Given(s) => Some(Some(s@)),
    }
}

fn is_memory_name_char(c: char) -> (b: bool)
    ensures
        b == memory_name_char(c),
{
    ('a' <= c && c <= 'z') || ('A' <= c && c <= 'Z') || ('0' <= c && c <= '9') || c == '_' || c == '-'
}

/// The path that opens the in-memory database `name`, or the message that refuses it.
pub fn memory_path(name: NameArg) -> (r: Result<String, String>)
    ensures
        match r {
            Ok(p) => memory_path_spec(name_arg_view(name)) == Ok::<Seq<char>, Seq<char>>(p@),
            Err(e) => memory_path_spec(name_arg_view(name)) == Err::<Seq<char>, Seq<char>>(e@),
        },
{
    match name {
        NameArg::Absent => Ok(string_from_chars(chars_of(":memory:").as_slice())),
        NameArg::Unreadable => Err(string_from_chars(chars_of("snr_open_memory: name no es UTF-8 válido").as_slice())),
        NameArg::Given(n) => {
            let v = chars_of(n);
            let mut i: usize = 0;
            while i < v.len()
                invariant
                    i <= v@.len(),
                    v@ == n@,
                    name_arg_view(name) == Some(Some(n@)),
                    forall|j: int| 0 <= j < i ==> memory_name_char(#[trigger] v@[j]),
                decreases v@.len() - i,
            {
                if !is_memory_name_char(v[i]) {
                    assert(!memory_name_char(n@[i as int]));
                    return Err(string_from_chars(chars_of("snr_open_memory: name inválido — solo [A-Za-z0-9_-] permitido").as_slice()));
                }
                i = i + 1;
            }
            let mut p = String::new();
            push_str(&mut p, "file:");
            push_chars(&mut p, v.as_slice());
            push_str(&mut p, "?mode=memory&cache=shared");
            Ok(p)
        },
    }
}

/// `s` with every `"` doubled, as SQL escapes a quoted identifier.
pub open spec fn escape_quotes(s: Seq<char>) -> Seq<char>
    decreases s.len(),
{
    if s.len() == 0 {
        s
    } else if s[0] == '"' {
        seq!['"', '"'] + escape_quotes(s.drop_first())
    } else {
        seq![s[0]] + escape_quotes(s.drop_first())
    }
}

/// Reads an escaped identifier body back: every `""` stands for one `"`.
pub open spec fn unescape_quotes(s: Seq<char>) -> Seq<char>
    decreases s.len(),
{
    if s.len() >= 2 && s[0] == '"' && s[1] == '"' {
        seq!['"'] + unescape_quotes(s.skip(2))
    } else if s.len() == 0 {
        s
    } else {
        seq![s[0]] + unescape_quotes(s.drop_first())
    }
}

/// Whether every `"` of `s` belongs to a doubled pair, so that `s` cannot
/// close the quoted identifier it stands in.
pub open spec fn quotes_paired(s: Seq<char>) -> bool
    decreases s.len(),
{
    if s.len() == 0 {
        true
    } else if s[0] == '"' {
        s.len() >= 2 && s[1] == '"' && quotes_paired(s.skip(2))
    } else {
        quotes_paired(s.drop_first())
    }
}

/// `name` as a quoted SQL identifier.
pub open spec fn quote_identifier_spec(name: Seq<char>) -> Seq<char> {
    seq!['"'] + escape_quotes(name) + seq!['"']
}

/// Escaping keeps every quote paired, and reading the escaped text back
/// gives back the name itself: a name can never end the identifier early.
pub proof fn lemma_escape_quotes_roundtrip(s: Seq<char>)
    ensures
        unescape_quotes(escape_quotes(s)) == s,
        quotes_paired(escape_quotes(s)),
    decreases s.len(),
{
    if s.len() > 0 {
        lemma_escape_quotes_roundtrip(s.drop_first());
        let r = escape_quotes(s.drop_first());
        let e = escape_quotes(s);
        if s[0] == '"' {
            assert(e == seq!['"', '"'] + r);
            assert(e.skip(2) =~= r);
        } else {
            assert(e == seq![s[0]] + r);
            assert(e.drop_first() =~= r);
        }
        assert(seq![s[0]] + s.drop_first() =~= s);
    }
}

/// `name` as a quoted SQL identifier, with every `"` doubled.
pub fn quote_identifier(name: &str) -> (q: String)
    ensures
        q@ == quote_identifier_spec(name@),
{
    let v = chars_of(name);
    let mut q = String::new();
    q.push('"');
    let mut i: usize = 0;
    assert(v@.skip(0) =~= v@);
    while i < v.len()
        invariant
            i <= v@.len(),
            v@ == name@,
            seq!['"'] + escape_quotes(name@) == q@ + escape_quotes(v@.skip(i as int)),
        decreases v@.len() - i,
    {
        let ghost before = q@;
        let ghost rest = v@.skip(i as int);
        assert(rest[0] == v@[i as int]);
        assert(rest.drop_first() =~= v@.skip(i + 1));
        if v[i] == '"' {
            q.push('"');
            q.push('"');
            assert(q@ =~= before + seq!['"', '"']);
        } else {
            q.push(v[i]);
            assert(q@ =~= before + seq![v@[i as int]]);
        }
        i = i + 1;
    }
    assert(v@.skip(i as int) =~= Seq::<char>::empty());
    q.push('"');
    assert(q@ =~= quote_identifier_spec(name@));
    q
}

/// The statement `{command} "{name}"` with `name` quoted.
pub open spec fn named_command_spec(command: Seq<char>, name: Seq<char>) -> Seq<char> {
    command + " "@ + quote_identifier_spec(name)
}

/// The statement `{command} "{name}"`, as used for savepoints.
pub fn named_command(command: &str, name: &str) -> (sql: String)
    ensures
        sql@ == named_command_spec(command@, name@),
{
    let mut sql = String::new();
    push_str(&mut sql, command);
    push_str(&mut sql, " ");
    let q = quote_identifier(name);
    push_str(&mut sql, q.as_str());
    sql
}

/// The keyword of a checkpoint mode, for the modes SQLite knows.
pub open spec fn checkpoint_mode_name(mode: i32) -> Option<Seq<char>> {
    if mode == SNR_CHECKPOINT_PASSIVE {
        Some("PASSIVE"@)
    } else if mode == SNR_CHECKPOINT_FULL {
        Some("FULL"@)
    } else if mode == SNR_CHECKPOINT_RESTART {
        Some("RESTART"@)
    } else if mode == SNR_CHECKPOINT_TRUNCATE {
        Some("TRUNCATE"@)
    } else {
        None
    }
}

/// The keyword of a checkpoint mode, for the modes SQLite knows.
pub fn checkpoint_mode_keyword(mode: i32) -> (r: Option<&'static str>)
    ensures
        match r {
            Some(k) => checkpoint_mode_name(mode) == Some(k@),
            None => checkpoint_mode_name(mode) is None,
        },
{
    if mode == SNR_CHECKPOINT_PASSIVE {
        Some("PASSIVE")
    } else if mode == SNR_CHECKPOINT_FULL {
        Some("FULL")
    } else if mode == SNR_CHECKPOINT_RESTART {
        Some("RESTART")
    } else if mode == SNR_CHECKPOINT_TRUNCATE {
        Some("TRUNCATE")
    } else {
        None
    }
}

/// Each checkpoint mode is named by SQLite's keyword for that same mode, the
/// runtime's mode numbers being SQLite's own (`SQLITE_CHECKPOINT_PASSIVE` 0,
/// `FULL` 1, `RESTART` 2, `TRUNCATE` 3): `PASSIVE`, `FULL`, `RESTART` and
/// `TRUNCATE`. No other number has a keyword, and no two modes share one, so
/// the checkpoint that runs is the one asked for.
pub proof fn lemma_checkpoint_mode_names()
    ensures
        SNR_CHECKPOINT_PASSIVE == 0 && SNR_CHECKPOINT_FULL == 1 && SNR_CHECKPOINT_RESTART == 2
            && SNR_CHECKPOINT_TRUNCATE == 3,
        checkpoint_mode_name(SNR_CHECKPOINT_PASSIVE) == Some("PASSIVE"@),
        checkpoint_mode_name(SNR_CHECKPOINT_FULL) == Some("FULL"@),
        checkpoint_mode_name(SNR_CHECKPOINT_RESTART) == Some("RESTART"@),
        checkpoint_mode_name(SNR_CHECKPOINT_TRUNCATE) == Some("TRUNCATE"@),
        forall|m: i32|
            #![trigger checkpoint_mode_name(m)]
            checkpoint_mode_name(m) is Some <==> (m == SNR_CHECKPOINT_PASSIVE || m == SNR_CHECKPOINT_FULL || m
                == SNR_CHECKPOINT_RESTART || m == SNR_CHECKPOINT_TRUNCATE),
        forall|a: i32, b: i32|
            #![trigger checkpoint_mode_name(a), checkpoint_mode_name(b)]
            checkpoint_mode_name(a) is Some && checkpoint_mode_name(a) == checkpoint_mode_name(b) ==> a == b,
{
    reveal_strlit("PASSIVE");
    reveal_strlit("FULL");
    reveal_strlit("RESTART");
    reveal_strlit("TRUNCATE");
    assert("PASSIVE"@ != "FULL"@ && "PASSIVE"@ != "RESTART"@ && "PASSIVE"@ != "TRUNCATE"@) by {
        assert("PASSIVE"@.len() != "FULL"@.len());
        assert("PASSIVE"@[0] != "RESTART"@[0]);
        assert("PASSIVE"@[0] != "TRUNCATE"@[0]);
    }
    assert("FULL"@ != "RESTART"@ && "FULL"@ != "TRUNCATE"@ && "RESTART"@ != "TRUNCATE"@) by {
        assert("FULL"@[0] != "RESTART"@[0]);
        assert("FULL"@[0] != "TRUNCATE"@[0]);
        assert("RESTART"@[0] != "TRUNCATE"@[0]);
    }
}

/// A checkpoint's frame counts packed into one 64-bit value: the WAL frames
/// in the high 32 bits, the checkpointed frames in the low 32 bits.
pub open spec fn pack_checkpoint_spec(wal_frames: i32, checkpointed: i32) -> i64 {
    ((wal_frames as i64) << 32u64) | ((checkpointed as i64) & 0xFFFF_FFFFi64)
}

/// Packs a checkpoint's frame counts into one 64-bit value.
pub fn pack_checkpoint(wal_frames: i32, checkpointed: i32) -> (r: i64)
    ensures
        r == pack_checkpoint_spec(wal_frames, checkpointed),
{
    ((wal_frames as i64) << 32u64) | ((checkpointed as i64) & 0xFFFF_FFFFi64)
}

/// Unpacking a packed checkpoint result gives back both frame counts.
pub proof fn lemma_pack_checkpoint_roundtrip(wal_frames: i32, checkpointed: i32)
    ensures
        (pack_checkpoint_spec(wal_frames, checkpointed) >> 32u64) as i32 == wal_frames,
        (pack_checkpoint_spec(wal_frames, checkpointed) & 0xFFFF_FFFFi64) as i32 == checkpointed,
{
    let a = wal_frames as i64;
    let b = checkpointed as i64;
    assert((((a << 32u64) | (b & 0xFFFF_FFFFi64)) >> 32u64) as i32 == a as i32) by (bit_vector);
    assert((((a << 32u64) | (b & 0xFFFF_FFFFi64)) & 0xFFFF_FFFFi64) as i32 == b as i32) by (bit_vector);
}

} // verus!
