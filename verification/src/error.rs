//! The last-error slot: the message of the most recent failed operation, or
//! nothing after an operation that succeeded.
use vstd::prelude::*;

verus! {

/// `msg` cut at its first NUL character (a C string cannot hold one).
pub open spec fn truncate_at_nul(msg: Seq<char>) -> Seq<char>
    decreases msg.len(),
{
    if msg.len() == 0 {
        msg
    } else if msg[0] == '\u{0}' {
        Seq::empty()
    } else {
        seq![msg[0]] + truncate_at_nul(msg.drop_first())
    }
}

/// Holds the message of the last failed operation.
pub struct ErrorSlot {
    last: Option<String>,
}

impl View for ErrorSlot {
    type V = Option<Seq<char>>;

    closed spec fn view(&self) -> Option<Seq<char>> {
        match self.last {
            Some(s) => Some(s@),
            None => None,
        }
    }
}

impl ErrorSlot {
    /// An empty slot.
    pub fn new() -> (e: ErrorSlot)
        ensures
            e@ is None,
    {
        ErrorSlot { last: None }
    }

    /// Records `msg`, cut at its first NUL character.
    pub fn set(&mut self, msg: &str)
        ensures
            final(self)@ == Some(truncate_at_nul(msg@)),
    {
        let v = crate::text::chars_of(msg);
        let mut out: Vec<char> = Vec::new();
        let mut i: usize = 0;
        assert(v@.skip(0) =~= v@);
        assert(out@ + truncate_at_nul(v@) =~= truncate_at_nul(v@));
        while i < v.len() && v[i] != '\u{0}'
            invariant
                i <= v@.len(),
                v@ == msg@,
                out@ == v@.take(i as int),
                forall|j: int| 0 <= j < i ==> v@[j] != '\u{0}',
                truncate_at_nul(msg@) == out@ + truncate_at_nul(v@.skip(i as int)),
            decreases v@.len() - i,
        {
            let ghost rest = v@.skip(i as int);
            assert(rest[0] == v@[i as int]);
            assert(rest.drop_first() =~= v@.skip(i + 1));
            out.push(v[i]);
            i = i + 1;
            assert(out@ =~= v@.take(i as int));
            assert(truncate_at_nul(rest) == seq![v@[i - 1]] + truncate_at_nul(v@.skip(i as int)));
            assert(out@ + truncate_at_nul(v@.skip(i as int)) =~= v@.take(i - 1) + (seq![v@[i - 1]]
                + truncate_at_nul(v@.skip(i as int))));
        }
        proof {
            let rest = v@.skip(i as int);
            if i < v@.len() {
                assert(rest[0] == '\u{0}');
            } else {
                assert(rest.len() == 0);
            }
            assert(truncate_at_nul(rest) =~= Seq::<char>::empty());
            assert(out@ + truncate_at_nul(rest) =~= out@);
        }
        self.last = Some(crate::text::string_from_chars(out.as_slice()));
    }

    /// Forgets the recorded message.
    pub fn clear(&mut self)
        ensures
            final(self)@ is None,
    {
        self.last = None;
    }

    /// The recorded message, if any.
    pub fn last_error(&self) -> (r: Option<&str>)
        ensures
            match r {
                Some(s) => self@ == Some(s@),
                None => self@ is None,
            },
    {
        match &self.last {
            Some(s) => Some(s.as_str()),
            None => None,
        }
    }

    /// A copy of the recorded message, owned by the caller, if any.
    pub fn last_error_copy(&self) -> (r: Option<String>)
        ensures
            match r {
                Some(s) => self@ == Some(s@),
                None => self@ is None,
            },
    {
        match &self.last {
            Some(s) => Some(s.clone()),
            None => None,
        }
    }
}

/// The message of the last failed operation recorded in `err`; none after
/// an operation that succeeded.
pub fn snr_last_error(err: &ErrorSlot) -> (r: Option<&str>)
    ensures
        match r {
            Some(s) => err@ == Some(s@),
            None => err@ is None,
        },
{
    err.last_error()
}

/// A copy, owned by the caller, of the message recorded in `err`, if any.
pub fn snr_last_error_copy(err: &ErrorSlot) -> (r: Option<String>)
    ensures
        match r {
            Some(s) => err@ == Some(s@),
            None => err@ is None,
        },
{
    err.last_error_copy()
}

/// Frees a string the runtime handed out; freeing none does nothing.
pub fn snr_free_string(s: Option<String>) {
    match s {
        Some(_) => {},
        None => {},
    }
}

/// What a slot records of a message holds no NUL, is no longer than the
/// message, and is the whole message when it held no NUL.
pub proof fn lemma_truncate_at_nul(msg: Seq<char>)
    ensures
        truncate_at_nul(msg).len() <= msg.len(),
        !truncate_at_nul(msg).contains('\u{0}'),
        !msg.contains('\u{0}') ==> truncate_at_nul(msg) == msg,
    decreases msg.len(),
{
    if msg.len() > 0 {
        lemma_truncate_at_nul(msg.drop_first());
        let t = truncate_at_nul(msg);
        if msg[0] != '\u{0}' {
            let r = truncate_at_nul(msg.drop_first());
            assert(t == seq![msg[0]] + r);
            assert(!t.contains('\u{0}')) by {
                if t.contains('\u{0}') {
                    let i = choose|i: int| 0 <= i < t.len() && t[i] == '\u{0}';
                    if i > 0 {
                        assert(r[i - 1] == '\u{0}');
                    }
                }
            }
            if !msg.contains('\u{0}') {
                assert(!msg.drop_first().contains('\u{0}')) by {
                    if msg.drop_first().contains('\u{0}') {
                        let i = choose|i: int| 0 <= i < msg.drop_first().len() && msg.drop_first()[i] == '\u{0}';
                        assert(msg[i + 1] == '\u{0}');
                    }
                }
                assert(seq![msg[0]] + msg.drop_first() =~= msg);
            }
        } else {
            assert(msg.contains('\u{0}'));
        }
    }
}

} // verus!
