//! Parsing and validation of production MQTT topics of the form
//! `db/{priority}/{tenant}/{database}/{entity}/{operation}`.
use vstd::prelude::*;
use crate::text::{chars_eq_str, chars_of, decimal, push_chars, push_decimal, push_str, string_from_chars};

verus! {

/// Processing priority; selects the queue and its batch/flush settings.
#[derive(Debug, Clone, Copy, PartialEq, Eq, Hash, Structural)]
pub enum Priority {
    High,
    Normal,
    Low,
}

/// Operation to apply to the entity.
#[derive(Debug, Clone, Copy, PartialEq, Eq, Hash, Structural)]
pub enum Operation {
    Insert,
    InsertBatch,
    Upsert,
    Update,
    Delete,
}

/// The wire name of a priority.
pub open spec fn priority_name(p: Priority) -> Seq<char> {
    match p {
        Priority::High => "high"@,
        Priority::Normal => "normal"@,
        Priority::Low => "low"@,
    }
}

/// The priority whose wire name is `s`, if any.
pub open spec fn priority_of(s: Seq<char>) -> Option<Priority> {
    if s == "high"@ {
        Some(Priority::High)
    } else if s == "normal"@ {
        Some(Priority::Normal)
    } else if s == "low"@ {
        Some(Priority::Low)
    } else {
        None
    }
}

/// The wire name of an operation.
pub open spec fn operation_name(o: Operation) -> Seq<char> {
    match o {
        Operation::Insert => "insert"@,
        Operation::InsertBatch => "insert_batch"@,
        Operation::Upsert => "upsert"@,
        Operation::Update => "update"@,
        Operation::Delete => "delete"@,
    }
}

/// The operation whose wire name is `s`, if any.
pub open spec fn operation_of(s: Seq<char>) -> Option<Operation> {
    if s == "insert"@ {
        Some(Operation::Insert)
    } else if s == "insert_batch"@ {
        Some(Operation::InsertBatch)
    } else if s == "upsert"@ {
        Some(Operation::Upsert)
    } else if s == "update"@ {
        Some(Operation::Update)
    } else if s == "delete"@ {
        Some(Operation::Delete)
    } else {
        None
    }
}

/// Message for an unknown priority name.
pub open spec fn unknown_priority_message(s: Seq<char>) -> Seq<char> {
    "prioridad desconocida: '"@ + s + "'"@
}

/// Message for an unknown operation name.
pub open spec fn unknown_operation_message(s: Seq<char>) -> Seq<char> {
    "operación desconocida: '"@ + s + "'"@
}

impl Priority {
    /// The wire name: `"high"`, `"normal"` or `"low"`.
    pub fn as_str(self) -> (s: &'static str)
        ensures
            s@ == priority_name(self),
    {
        match self {
            Priority::High => "high",
            Priority::Normal => "normal",
            Priority::Low => "low",
        }
    }

    /// Parses a wire name; any other text is refused with a message naming it.
    pub fn try_from_str(s: &str) -> (r: Result<Priority, String>)
        ensures
            match r {
                Ok(p) => priority_of(s@) == Some(p),
                Err(e) => priority_of(s@) is None && e@ == unknown_priority_message(s@),
            },
    {
        let v = chars_of(s);
        match priority_from_chars(&v) {
            Some(p) => Ok(p),
            None => {
                let mut e = String::new();
                push_str(&mut e, "prioridad desconocida: '");
                push_str(&mut e, s);
                push_str(&mut e, "'");
                Err(e)
            },
        }
    }
}

impl Operation {
    /// The wire name, such as `"insert_batch"`.
    pub fn as_str(self) -> (s: &'static str)
        ensures
            s@ == operation_name(self),
    {
        match self {
            Operation::Insert => "insert",
            Operation::InsertBatch => "insert_batch",
            Operation::Upsert => "upsert",
            Operation::Update => "update",
            Operation::Delete => "delete",
        }
    }

    /// Parses a wire name; any other text is refused with a message naming it.
    pub fn try_from_str(s: &str) -> (r: Result<Operation, String>)
        ensures
            match r {
                Ok(o) => operation_of(s@) == Some(o),
                Err(e) => operation_of(s@) is None && e@ == unknown_operation_message(s@),
            },
    {
        let v = chars_of(s);
        match operation_from_chars(&v) {
            Some(o) => Ok(o),
            None => {
                let mut e = String::new();
                push_str(&mut e, "operación desconocida: '");
                push_str(&mut e, s);
                push_str(&mut e, "'");
                Err(e)
            },
        }
    }
}

fn priority_from_chars(v: &[char]) -> (r: Option<Priority>)
    ensures
        r == priority_of(v@),
{
    if chars_eq_str(v, "high") {
        Some(Priority::High)
    } else if chars_eq_str(v, "normal") {
        Some(Priority::Normal)
    } else if chars_eq_str(v, "low") {
        Some(Priority::Low)
    } else {
        None
    }
}

fn operation_from_chars(v: &[char]) -> (r: Option<Operation>)
    ensures
        r == operation_of(v@),
{
    if chars_eq_str(v, "insert") {
        Some(Operation::Insert)
    } else if chars_eq_str(v, "insert_batch") {
        Some(Operation::InsertBatch)
    } else if chars_eq_str(v, "upsert") {
        Some(Operation::Upsert)
    } else if chars_eq_str(v, "update") {
        Some(Operation::Update)
    } else if chars_eq_str(v, "delete") {
        Some(Operation::Delete)
    } else {
        None
    }
}

/// Result of parsing a production topic.
#[derive(Debug, Clone)]
pub struct ParsedTopic {
    pub priority: Priority,
    pub tenant: String,
    pub database_name: String,
    pub entity: String,
    pub operation: Operation,
}

/// The mathematical content of a [`ParsedTopic`].
pub struct ParsedTopicView {
    pub priority: Priority,
    pub tenant: Seq<char>,
    pub database_name: Seq<char>,
    pub entity: Seq<char>,
    pub operation: Operation,
}

impl View for ParsedTopic {
    type V = ParsedTopicView;

    open spec fn view(&self) -> ParsedTopicView {
        ParsedTopicView {
            priority: self.priority,
            tenant: self.tenant@,
            database_name: self.database_name@,
            entity: self.entity@,
            operation: self.operation,
        }
    }
}

/// Splits `s` at every occurrence of `sep` (as `str::split` does): the result
/// always has one more element than `s` has occurrences of `sep`.
pub open spec fn split_on(s: Seq<char>, sep: char) -> Seq<Seq<char>>
    decreases s.len(),
{
    if s.len() == 0 {
        seq![Seq::<char>::empty()]
    } else {
        let r = split_on(s.drop_last(), sep);
        if s.last() == sep {
            r.push(Seq::<char>::empty())
        } else {
            r.update(r.len() - 1, r.last().push(s.last()))
        }
    }
}

/// The number of pieces `splitn(7, '/')` yields for `t`.
pub open spec fn piece_count(t: Seq<char>) -> nat {
    let n = split_on(t, '/').len();
    if n > 7 { 7 } else { n }
}

/// The tail shared by every topic error message.
pub open spec fn topic_suffix(t: Seq<char>) -> Seq<char> {
    ". Topic: '"@ + t + "'"@
}

/// Message for a topic that does not have six segments.
pub open spec fn segment_count_message(n: nat, t: Seq<char>) -> Seq<char> {
    "topic inválido: se esperaban 6 segmentos separados por '/', se encontraron "@ + decimal(n)
        + topic_suffix(t)
}

/// Message for a topic whose first segment is not `db`.
pub open spec fn prefix_message(first: Seq<char>, t: Seq<char>) -> Seq<char> {
    "topic inválido: debe comenzar con 'db/', comenzó con '"@ + first + "'"@ + topic_suffix(t)
}

/// The error for a segment that must hold a concrete value, if it does not.
pub open spec fn segment_error(seg: Seq<char>, field: Seq<char>, t: Seq<char>) -> Option<Seq<char>> {
    if seg.len() == 0 {
        Some("topic inválido: el campo '"@ + field + "' está vacío"@ + topic_suffix(t))
    } else if seg == "+"@ || seg == "#"@ {
        Some(
            "topic inválido: '"@ + field + "' no puede ser un wildcard MQTT ('"@ + seg + "')"@
                + topic_suffix(t),
        )
    } else {
        None
    }
}

/// What parsing `t` yields: the topic's fields, or the message of the first
/// check that fails (segment count, `db` prefix, priority, tenant, database,
/// entity, operation, in that order).
pub open spec fn parse_topic_spec(t: Seq<char>) -> Result<ParsedTopicView, Seq<char>> {
    let parts = split_on(t, '/');
    if parts.len() != 6 {
        Err(segment_count_message(piece_count(t), t))
    } else if parts[0] != "db"@ {
        Err(prefix_message(parts[0], t))
    } else if priority_of(parts[1]) is None {
        Err(unknown_priority_message(parts[1]) + topic_suffix(t))
    } else if segment_error(parts[2], "tenant"@, t) is Some {
        Err(segment_error(parts[2], "tenant"@, t)->0)
    } else if segment_error(parts[3], "database"@, t) is Some {
        Err(segment_error(parts[3], "database"@, t)->0)
    } else if segment_error(parts[4], "entity"@, t) is Some {
        Err(segment_error(parts[4], "entity"@, t)->0)
    } else if operation_of(parts[5]) is None {
        Err(unknown_operation_message(parts[5]) + topic_suffix(t))
    } else {
        Ok(
            ParsedTopicView {
                priority: priority_of(parts[1])->0,
                tenant: parts[2],
                database_name: parts[3],
                entity: parts[4],
                operation: operation_of(parts[5])->0,
            },
        )
    }
}

/// The view of a parse result.
pub open spec fn parse_result_view(r: Result<ParsedTopic, String>) -> Result<ParsedTopicView, Seq<char>> {
    match r {
        Ok(p) => Ok(p@),
        Err(e) => Err(e@),
    }
}

pub proof fn lemma_split_nonempty(s: Seq<char>, sep: char)
    ensures
        split_on(s, sep).len() >= 1,
    decreases s.len(),
{
    if s.len() > 0 {
        lemma_split_nonempty(s.drop_last(), sep);
    }
}

/// Splits `v` at every `sep`.
pub fn split_chars(v: &Vec<char>, sep: char) -> (parts: Vec<Vec<char>>)
    ensures
        parts@.len() == split_on(v@, sep).len(),
        forall|j: int| 0 <= j < parts@.len() ==> #[trigger] parts@[j]@ == split_on(v@, sep)[j],
{
    let mut parts: Vec<Vec<char>> = Vec::new();
    let mut cur: Vec<char> = Vec::new();
    let mut i: usize = 0;
    while i < v.len()
        invariant
            i <= v@.len(),
            parts@.len() + 1 == split_on(v@.take(i as int), sep).len(),
            forall|j: int|
                0 <= j < parts@.len() ==> #[trigger] parts@[j]@ == split_on(v@.take(i as int), sep)[j],
            cur@ == split_on(v@.take(i as int), sep).last(),
        decreases v@.len() - i,
    {
        let ghost prev = v@.take(i as int);
        let c = v[i];
        proof {
            lemma_split_nonempty(prev, sep);
            assert(v@.take(i + 1).drop_last() =~= prev);
            assert(v@.take(i + 1).last() == c);
        }
        if c == sep {
            let done = cur;
            parts.push(done);
            cur = Vec::new();
        } else {
            cur.push(c);
        }
        i = i + 1;
        proof {
            let r = split_on(prev, sep);
            let now = split_on(v@.take(i as int), sep);
            if c == sep {
                assert(now == r.push(Seq::<char>::empty()));
            } else {
                assert(now == r.update(r.len() - 1, r.last().push(c)));
            }
            assert forall|j: int| 0 <= j < parts@.len() implies #[trigger] parts@[j]@ == now[j] by {}
        }
    }
    assert(v@.take(v@.len() as int) =~= v@);
    parts.push(cur);
    parts
}

/// Checks that a segment holds a concrete value: not empty, not an MQTT wildcard.
pub fn validate_segment(seg: &str, field: &str, topic: &str) -> (r: Result<String, String>)
    ensures
        match r {
            Ok(s) => segment_error(seg@, field@, topic@) is None && s@ == seg@,
            Err(e) => segment_error(seg@, field@, topic@) == Some(e@),
        },
{
    let v = chars_of(seg);
    check_segment(&v, field, topic)
}

fn check_segment(v: &Vec<char>, field: &str, topic: &str) -> (r: Result<String, String>)
    ensures
        match r {
            Ok(s) => segment_error(v@, field@, topic@) is None && s@ == v@,
            Err(e) => segment_error(v@, field@, topic@) == Some(e@),
        },
{
    if v.len() == 0 {
        let mut e = String::new();
        push_str(&mut e, "topic inválido: el campo '");
        push_str(&mut e, field);
        push_str(&mut e, "' está vacío");
        push_topic_suffix(&mut e, topic);
        return Err(e);
    }
    if chars_eq_str(v.as_slice(), "+") || chars_eq_str(v.as_slice(), "#") {
        let mut e = String::new();
        push_str(&mut e, "topic inválido: '");
        push_str(&mut e, field);
        push_str(&mut e, "' no puede ser un wildcard MQTT ('");
        push_chars(&mut e, v.as_slice());
        push_str(&mut e, "')");
        push_topic_suffix(&mut e, topic);
        return Err(e);
    }
    Ok(string_from_chars(v.as_slice()))
}

fn push_topic_suffix(e: &mut String, topic: &str)
    ensures
        final(e)@ == old(e)@ + topic_suffix(topic@),
{
    push_str(e, ". Topic: '");
    push_str(e, topic);
    push_str(e, "'");
}

/// Parses a topic with the pattern `db/{priority}/{tenant}/{database}/{entity}/{operation}`.
///
/// Refuses, with a message that names the cause and ends with the topic,
/// every topic that does not follow the pattern or holds invalid values.
pub fn parse_topic(topic: &str) -> (r: Result<ParsedTopic, String>)
    ensures
        parse_result_view(r) == parse_topic_spec(topic@),
{
    let chars = chars_of(topic);
    let parts = split_chars(&chars, '/');
    let ghost t = topic@;
    if parts.len() != 6 {
        let n: u128 = if parts.len() > 7 { 7 } else { parts.len() as u128 };
        let mut e = String::new();
        push_str(&mut e, "topic inválido: se esperaban 6 segmentos separados por '/', se encontraron ");
        push_decimal(&mut e, n);
        push_topic_suffix(&mut e, topic);
        proof {
            assert(e@ =~= segment_count_message(piece_count(t), t));
        }
        return Err(e);
    }
    let ghost sp = split_on(t, '/');
    assert(parts@[0]@ == sp[0] && parts@[1]@ == sp[1] && parts@[2]@ == sp[2]);
    assert(parts@[3]@ == sp[3] && parts@[4]@ == sp[4] && parts@[5]@ == sp[5]);
    if !chars_eq_str(parts[0].as_slice(), "db") {
        let mut e = String::new();
        push_str(&mut e, "topic inválido: debe comenzar con 'db/', comenzó con '");
        push_chars(&mut e, parts[0].as_slice());
        push_str(&mut e, "'");
        push_topic_suffix(&mut e, topic);
        proof {
            assert(e@ =~= prefix_message(sp[0], t));
        }
        return Err(e);
    }
    let priority = match priority_from_chars(parts[1].as_slice()) {
        Some(p) => p,
        None => {
            let mut e = String::new();
            push_str(&mut e, "prioridad desconocida: '");
            push_chars(&mut e, parts[1].as_slice());
            push_str(&mut e, "'");
            push_topic_suffix(&mut e, topic);
            proof {
                assert(e@ =~= unknown_priority_message(sp[1]) + topic_suffix(t));
            }
            return Err(e);
        },
    };
    let tenant = check_segment(&parts[2], "tenant", topic)?;
    let database_name = check_segment(&parts[3], "database", topic)?;
    let entity = check_segment(&parts[4], "entity", topic)?;
    let operation = match operation_from_chars(parts[5].as_slice()) {
        Some(o) => o,
        None => {
            let mut e = String::new();
            push_str(&mut e, "operación desconocida: '");
            push_chars(&mut e, parts[5].as_slice());
            push_str(&mut e, "'");
            push_topic_suffix(&mut e, topic);
            proof {
                assert(e@ =~= unknown_operation_message(sp[5]) + topic_suffix(t));
            }
            return Err(e);
        },
    };
    Ok(ParsedTopic { priority, tenant, database_name, entity, operation })
}


/// Whether `s` may stand as the tenant, database or entity of a topic: not
/// empty, not an MQTT wildcard, and free of the `/` separator.
pub open spec fn valid_segment(s: Seq<char>) -> bool {
    &&& s.len() > 0
    &&& s != "+"@
    &&& s != "#"@
    &&& !s.contains('/')
}

/// The production topic that carries the fields of `v`.
pub open spec fn topic_of(v: ParsedTopicView) -> Seq<char> {
    "db"@ + seq!['/'] + priority_name(v.priority) + seq!['/'] + v.tenant + seq!['/'] + v.database_name
        + seq!['/'] + v.entity + seq!['/'] + operation_name(v.operation)
}

proof fn lemma_split_concat(a: Seq<char>, b: Seq<char>, sep: char)
    ensures
        split_on(a + seq![sep] + b, sep) == split_on(a, sep) + split_on(b, sep),
    decreases b.len(),
{
    let s = a + seq![sep] + b;
    if b.len() == 0 {
        assert(s.drop_last() =~= a);
        assert(split_on(b, sep) =~= seq![Seq::<char>::empty()]);
        assert(split_on(s, sep) =~= split_on(a, sep) + split_on(b, sep));
    } else {
        let bd = b.drop_last();
        assert(s.drop_last() =~= a + seq![sep] + bd);
        lemma_split_concat(a, bd, sep);
        lemma_split_nonempty(bd, sep);
        let x = split_on(a, sep);
        let y = split_on(bd, sep);
        if b.last() == sep {
            assert(split_on(s, sep) =~= x + y.push(Seq::<char>::empty()));
        } else {
            assert((x + y).update((x + y).len() - 1, (x + y).last().push(b.last())) =~= x + y.update(
                y.len() - 1,
                y.last().push(b.last()),
            ));
        }
        assert(split_on(s, sep) =~= split_on(a, sep) + split_on(b, sep));
    }
}

proof fn lemma_split_without_sep(a: Seq<char>, sep: char)
    requires
        !a.contains(sep),
    ensures
        split_on(a, sep) == seq![a],
    decreases a.len(),
{
    if a.len() > 0 {
        let ad = a.drop_last();
        assert(!ad.contains(sep)) by {
            if ad.contains(sep) {
                let i = choose|i: int| 0 <= i < ad.len() && ad[i] == sep;
                assert(a[i] == sep);
            }
        }
        lemma_split_without_sep(ad, sep);
        assert(a.last() != sep) by {
            assert(a[a.len() - 1] == a.last());
        }
        assert(ad.push(a.last()) =~= a);
        assert(seq![ad].update(0, ad.push(a.last())) =~= seq![a]);
    } else {
        assert(a =~= Seq::<char>::empty());
    }
}

proof fn lemma_split_append(p: Seq<char>, parts: Seq<Seq<char>>, x: Seq<char>)
    requires
        split_on(p, '/') == parts,
        !x.contains('/'),
    ensures
        split_on(p + seq!['/'] + x, '/') == parts.push(x),
{
    lemma_split_concat(p, x, '/');
    lemma_split_without_sep(x, '/');
    assert(parts + seq![x] =~= parts.push(x));
}

/// Every priority's wire name parses back to that priority.
pub proof fn lemma_priority_name_roundtrip(p: Priority)
    ensures
        priority_of(priority_name(p)) == Some(p),
        !priority_name(p).contains('/'),
{
    reveal_strlit("high");
    reveal_strlit("normal");
    reveal_strlit("low");
    assert("high"@ != "normal"@) by { assert("high"@.len() != "normal"@.len()); }
    assert("high"@ != "low"@) by { assert("high"@.len() != "low"@.len()); }
    assert("normal"@ != "low"@) by { assert("normal"@.len() != "low"@.len()); }
    let n = priority_name(p);
    assert(!n.contains('/')) by {
        if n.contains('/') {
            let i = choose|i: int| 0 <= i < n.len() && n[i] == '/';
        }
    }
}

/// Every operation's wire name parses back to that operation.
pub proof fn lemma_operation_name_roundtrip(o: Operation)
    ensures
        operation_of(operation_name(o)) == Some(o),
        !operation_name(o).contains('/'),
{
    reveal_strlit("insert");
    reveal_strlit("insert_batch");
    reveal_strlit("upsert");
    reveal_strlit("update");
    reveal_strlit("delete");
    assert("insert"@ != "upsert"@) by { assert("insert"@[0] != "upsert"@[0]); }
    assert("insert"@ != "update"@) by { assert("insert"@[0] != "update"@[0]); }
    assert("insert"@ != "delete"@) by { assert("insert"@[0] != "delete"@[0]); }
    assert("upsert"@ != "update"@) by { assert("upsert"@[2] != "update"@[2]); }
    assert("upsert"@ != "delete"@) by { assert("upsert"@[0] != "delete"@[0]); }
    assert("update"@ != "delete"@) by { assert("update"@[0] != "delete"@[0]); }
    let n = operation_name(o);
    assert(!n.contains('/')) by {
        if n.contains('/') {
            let i = choose|i: int| 0 <= i < n.len() && n[i] == '/';
        }
    }
}

/// Parsing the topic built from valid fields gives back exactly those fields.
pub proof fn lemma_parse_topic_of(v: ParsedTopicView)
    requires
        valid_segment(v.tenant),
        valid_segment(v.database_name),
        valid_segment(v.entity),
    ensures
        parse_topic_spec(topic_of(v)) == Ok::<ParsedTopicView, Seq<char>>(v),
{
    reveal_strlit("db");
    let pn = priority_name(v.priority);
    let on = operation_name(v.operation);
    lemma_priority_name_roundtrip(v.priority);
    lemma_operation_name_roundtrip(v.operation);
    let db = "db"@;
    assert(!db.contains('/')) by {
        if db.contains('/') {
            let i = choose|i: int| 0 <= i < db.len() && db[i] == '/';
        }
    }
    lemma_split_without_sep(db, '/');
    let p1 = db + seq!['/'] + pn;
    lemma_split_append(db, seq![db], pn);
    let p2 = p1 + seq!['/'] + v.tenant;
    assert(seq![db].push(pn) =~= seq![db, pn]);
    lemma_split_append(p1, seq![db, pn], v.tenant);
    assert(seq![db, pn].push(v.tenant) =~= seq![db, pn, v.tenant]);
    let p3 = p2 + seq!['/'] + v.database_name;
    lemma_split_append(p2, seq![db, pn, v.tenant], v.database_name);
    assert(seq![db, pn, v.tenant].push(v.database_name) =~= seq![db, pn, v.tenant, v.database_name]);
    let p4 = p3 + seq!['/'] + v.entity;
    lemma_split_append(p3, seq![db, pn, v.tenant, v.database_name], v.entity);
    assert(seq![db, pn, v.tenant, v.database_name].push(v.entity) =~= seq![
        db,
        pn,
        v.tenant,
        v.database_name,
        v.entity,
    ]);
    let p5 = p4 + seq!['/'] + on;
    lemma_split_append(p4, seq![db, pn, v.tenant, v.database_name, v.entity], on);
    assert(seq![db, pn, v.tenant, v.database_name, v.entity].push(on) =~= seq![
        db,
        pn,
        v.tenant,
        v.database_name,
        v.entity,
        on,
    ]);
    assert(p5 == topic_of(v));
}

/// The pieces of `parts` joined with `sep` between each two.
pub open spec fn join_on(parts: Seq<Seq<char>>, sep: char) -> Seq<char>
    decreases parts.len(),
{
    if parts.len() == 0 {
        Seq::empty()
    } else if parts.len() == 1 {
        parts[0]
    } else {
        join_on(parts.drop_last(), sep) + seq![sep] + parts.last()
    }
}

proof fn lemma_join_extend_last(r: Seq<Seq<char>>, c: char, sep: char)
    requires
        r.len() >= 1,
    ensures
        join_on(r.update(r.len() - 1, r.last().push(c)), sep) == join_on(r, sep).push(c),
{
    let u = r.update(r.len() - 1, r.last().push(c));
    if r.len() == 1 {
        assert(u[0] == r[0].push(c));
    } else {
        assert(u.drop_last() =~= r.drop_last());
        assert(u.last() == r.last().push(c));
        assert(join_on(r.drop_last(), sep) + seq![sep] + r.last().push(c) =~= (join_on(r.drop_last(), sep)
            + seq![sep] + r.last()).push(c));
    }
}

/// Joining the pieces of a split with the separator gives back the text.
pub proof fn lemma_join_split(s: Seq<char>, sep: char)
    ensures
        join_on(split_on(s, sep), sep) == s,
    decreases s.len(),
{
    if s.len() == 0 {
        assert(join_on(seq![Seq::<char>::empty()], sep) == Seq::<char>::empty());
    } else {
        let r = split_on(s.drop_last(), sep);
        lemma_join_split(s.drop_last(), sep);
        lemma_split_nonempty(s.drop_last(), sep);
        if s.last() == sep {
            let u = r.push(Seq::<char>::empty());
            assert(u.drop_last() =~= r);
            assert(join_on(u, sep) == join_on(r, sep) + seq![sep] + Seq::<char>::empty());
            assert(s.drop_last() + seq![sep] + Seq::<char>::empty() =~= s);
        } else {
            lemma_join_extend_last(r, s.last(), sep);
            assert(s.drop_last().push(s.last()) =~= s);
        }
    }
}

/// Rebuilding a parsed topic gives back the topic text: parsing loses nothing.
pub proof fn lemma_topic_of_parse(t: Seq<char>)
    requires
        parse_topic_spec(t) is Ok,
    ensures
        topic_of(parse_topic_spec(t)->Ok_0) == t,
{
    let parts = split_on(t, '/');
    let v = parse_topic_spec(t)->Ok_0;
    lemma_join_split(t, '/');
    lemma_priority_name_roundtrip(v.priority);
    lemma_operation_name_roundtrip(v.operation);
    assert(priority_name(v.priority) == parts[1]) by {
        reveal_strlit("high");
        reveal_strlit("normal");
        reveal_strlit("low");
    }
    assert(operation_name(v.operation) == parts[5]) by {
        reveal_strlit("insert");
        reveal_strlit("insert_batch");
        reveal_strlit("upsert");
        reveal_strlit("update");
        reveal_strlit("delete");
    }
    let p5 = parts;
    let p4 = p5.drop_last();
    let p3 = p4.drop_last();
    let p2 = p3.drop_last();
    let p1 = p2.drop_last();
    let p0 = p1.drop_last();
    assert(p0.len() == 1 && p0[0] == parts[0]);
    assert(p1.len() == 2 && p1.last() == parts[1] && p1.drop_last() == p0);
    assert(p2.len() == 3 && p2.last() == parts[2]);
    assert(p3.len() == 4 && p3.last() == parts[3]);
    assert(p4.len() == 5 && p4.last() == parts[4]);
    assert(p5.len() == 6 && p5.last() == parts[5]);
    assert(join_on(p0, '/') == parts[0]);
    assert(join_on(p1, '/') == parts[0] + seq!['/'] + parts[1]);
    assert(join_on(p2, '/') == join_on(p1, '/') + seq!['/'] + parts[2]);
    assert(join_on(p3, '/') == join_on(p2, '/') + seq!['/'] + parts[3]);
    assert(join_on(p4, '/') == join_on(p3, '/') + seq!['/'] + parts[4]);
    assert(join_on(p5, '/') == join_on(p4, '/') + seq!['/'] + parts[5]);
    assert(topic_of(v) =~= join_on(parts, '/'));
}

} // verus!
