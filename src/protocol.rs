//! The status sub-protocol: `CURRENT_SERVER_STATE:<online>:<queue flag>`.
use vstd::prelude::*;
use vstd::string::*;

verus! {

/// The token that starts a server-state message.
pub open spec fn marker() -> Seq<char> {
    "CURRENT_SERVER_STATE"@
}

/// The fields of `t`, separated by ':' (as `str::split(':')` yields them).
pub open spec fn fields(t: Seq<char>) -> Seq<Seq<char>>
    decreases t.len(),
{
    if t.len() == 0 {
        seq![Seq::<char>::empty()]
    } else {
        let rest = fields(t.drop_last());
        if t.last() == ':' {
            rest.push(Seq::<char>::empty())
        } else {
            rest.update(rest.len() - 1, rest.last().push(t.last()))
        }
    }
}

/// A text always has at least one field.
pub proof fn lemma_fields_len(t: Seq<char>)
    ensures
        fields(t).len() >= 1,
    decreases t.len(),
{
    if t.len() > 0 {
        lemma_fields_len(t.drop_last());
    }
}

/// What an inbound text means.
pub enum Parsed {
    /// A server-state message: the online count as sent, and whether the
    /// queue flag is the literal `true`.
    ServerState { online: Seq<char>, queued: bool },
    /// The marker with fewer than three fields.
    Malformed,
    /// Any other text.
    Plain,
}

/// The meaning of the text `t`.
pub open spec fn parse_spec(t: Seq<char>) -> Parsed {
    if marker().is_prefix_of(t) {
        let f = fields(t);
        if f.len() < 3 {
            Parsed::Malformed
        } else {
            Parsed::ServerState { online: f[1], queued: f[2] == "true"@ }
        }
    } else {
        Parsed::Plain
    }
}

/// An inbound text, classified.
#[derive(PartialEq, Eq, Debug)]
pub enum ServerMessage {
    ServerState { online: Vec<char>, queued: bool },
    Malformed,
    Plain,
}

impl View for ServerMessage {
    type V = Parsed;

    open spec fn view(&self) -> Parsed {
        match self {
            ServerMessage::ServerState { online, queued } => Parsed::ServerState {
                online: online@,
                queued: *queued,
            },
            ServerMessage::Malformed => Parsed::Malformed,
            ServerMessage::Plain => Parsed::Plain,
        }
    }
}

fn starts_with_marker(t: &Vec<char>) -> (r: bool)
    ensures
        r == marker().is_prefix_of(t@),
{
    let m: &str = "CURRENT_SERVER_STATE";
    let n = m.unicode_len();
    if t.len() < n {
        return false;
    }
    let mut i: usize = 0;
    while i < n
        invariant
            i <= n,
            n == m@.len(),
            n <= t.len(),
            m@ == marker(),
            forall|j: int| 0 <= j < i ==> t@[j] == m@[j],
        decreases n - i,
    {
        if t[i] != m.get_char(i) {
            assert(t@.subrange(0, n as int)[i as int] != m@[i as int]);
            return false;
        }
        i += 1;
    }
    assert(m@ =~= t@.subrange(0, n as int));
    true
}

fn is_true_literal(f: &Vec<char>) -> (r: bool)
    ensures
        r == (f@ == "true"@),
{
    proof {
        reveal_strlit("true");
    }
    let r = f.len() == 4 && f[0] == 't' && f[1] == 'r' && f[2] == 'u' && f[3] == 'e';
    if r {
        assert(f@ =~= "true"@);
    }
    r
}

/// Classifies an inbound text: a server-state message when it starts with the
/// marker and has at least three ':'-separated fields, malformed when it starts
/// with the marker and has fewer, plain otherwise.
pub fn parse_text(t: &Vec<char>) -> (r: ServerMessage)
    ensures
        r@ == parse_spec(t@),
{
    if !starts_with_marker(t) {
        return ServerMessage::Plain;
    }
    let mut colons: usize = 0;
    let mut online: Vec<char> = Vec::new();
    let mut flag: Vec<char> = Vec::new();
    let mut k: usize = 0;
    assert(t@.take(0) =~= Seq::<char>::empty());
    while k < t.len()
        invariant
            k <= t.len(),
            colons <= k,
            fields(t@.take(k as int)).len() == colons + 1,
            colons >= 1 ==> fields(t@.take(k as int))[1] == online@,
            colons >= 2 ==> fields(t@.take(k as int))[2] == flag@,
            colons < 1 ==> online@.len() == 0,
            colons < 2 ==> flag@.len() == 0,
        decreases t.len() - k,
    {
        let c = t[k];
        let ghost prev = fields(t@.take(k as int));
        proof {
            let s = t@.take(k + 1);
            assert(s.drop_last() =~= t@.take(k as int));
            assert(s.last() == c);
            lemma_fields_len(t@.take(k as int));
            assert(fields(s) == if c == ':' {
                prev.push(Seq::<char>::empty())
            } else {
                prev.update(prev.len() - 1, prev.last().push(c))
            });
        }
        if c == ':' {
            colons += 1;
        } else if colons == 1 {
            online.push(c);
        } else if colons == 2 {
            flag.push(c);
        }
        k += 1;
    }
    assert(t@.take(t.len() as int) =~= t@);
    if colons < 2 {
        ServerMessage::Malformed
    } else {
        let queued = is_true_literal(&flag);
        ServerMessage::ServerState { online, queued }
    }
}

} // verus!
