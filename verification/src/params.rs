//! Parameters of the outbound "send message" call, and their assembly.
//!
//! [`build_send_params`] turns the accumulated response fields into the exact
//! ordered parameter list that the remote call is made with:
//! `peer_id` always, `message` only when the text is non-empty, `attachment`
//! (the descriptors joined by commas) only when there is at least one,
//! `keyboard` only when one is set, and `random_id` always.

use vstd::prelude::*;
use vstd::string::StringExecFns;
use crate::numtext::{int_to_dec, lemma_int_to_dec_injective, i32_to_dec, i64_to_dec};

verus! {

/// The views of a sequence of strings.
pub open spec fn seq_of_views(strings: Seq<String>) -> Seq<Seq<char>> {
    Seq::new(strings.len(), |i: int| strings[i]@)
}

/// The comma-separated join of a sequence of strings: no separator is added
/// before the first part or after the last, so a single part stands alone.
pub open spec fn join_commas(parts: Seq<Seq<char>>) -> Seq<char>
    decreases parts.len(),
{
    if parts.len() == 0 {
        Seq::empty()
    } else if parts.len() == 1 {
        parts[0]
    } else {
        join_commas(parts.drop_last()) + seq![','] + parts.last()
    }
}

/// Joins the strings with commas between them.
pub fn join_commas_exec(parts: &Vec<String>) -> (s: String)
    ensures
        s@ == join_commas(seq_of_views(parts@)),
{
    let ghost views = seq_of_views(parts@);
    let mut s = String::new();
    let mut i: usize = 0;
    while i < parts.len()
        invariant
            i <= parts@.len(),
            views == seq_of_views(parts@),
            views.len() == parts@.len(),
            s@ == join_commas(views.take(i as int)),
        decreases parts@.len() - i,
    {
        if i > 0 {
            s.append(",");
        }
        s.append(parts[i].as_str());
        proof {
            reveal_strlit(",");
            let prior = views.take(i as int);
            let now = views.take(i as int + 1);
            assert(now.drop_last() =~= prior);
            assert(now.last() == parts@[i as int]@);
            if i == 0 {
                assert(s@ =~= join_commas(now));
            } else {
                assert(s@ =~= join_commas(prior) + seq![','] + parts@[i as int]@);
            }
        }
        i += 1;
    }
    proof {
        assert(views.take(parts@.len() as int) =~= views);
    }
    s
}

/// An ordered list of named parameters for a remote call, viewed as the
/// sequence of its (key, value) pairs.
pub struct Params {
    pairs: Vec<(String, String)>,
}

impl View for Params {
    type V = Seq<(Seq<char>, Seq<char>)>;

    closed spec fn view(&self) -> Seq<(Seq<char>, Seq<char>)> {
        Seq::new(self.pairs@.len(), |i: int| (self.pairs@[i].0@, self.pairs@[i].1@))
    }
}

impl Params {
    /// An empty parameter list.
    pub fn new() -> (p: Params)
        ensures
            p@ == Seq::<(Seq<char>, Seq<char>)>::empty(),
    {
        let p = Params { pairs: Vec::new() };
        proof {
            assert(p@ =~= Seq::<(Seq<char>, Seq<char>)>::empty());
        }
        p
    }

    /// Appends one (key, value) pair.
    pub fn insert(&mut self, key: String, value: String)
        ensures
            final(self)@ == old(self)@.push((key@, value@)),
    {
        let ghost k = key@;
        let ghost v = value@;
        self.pairs.push((key, value));
        proof {
            assert(final(self)@ =~= old(self)@.push((k, v)));
        }
    }

    /// The number of pairs.
    pub fn len(&self) -> (n: usize)
        ensures
            n == self@.len(),
    {
        self.pairs.len()
    }

    /// The key of the pair at an index.
    pub fn key_at(&self, i: usize) -> (k: &String)
        requires
            i < self@.len(),
        ensures
            k@ == self@[i as int].0,
    {
        &self.pairs[i].0
    }

    /// The value of the pair at an index.
    pub fn value_at(&self, i: usize) -> (v: &String)
        requires
            i < self@.len(),
        ensures
            v@ == self@[i as int].1,
    {
        &self.pairs[i].1
    }
}

/// The view of an optional string.
pub open spec fn opt_view(o: Option<String>) -> Option<Seq<char>> {
    match o {
        Some(s) => Some(s@),
        None => None,
    }
}

/// The exact parameter list of one "send message" call: `peer_id` and
/// `random_id` always; `message`, `attachment` and `keyboard` only when the
/// response carries them.
pub open spec fn send_param_seq(
    peer_id: int,
    message: Seq<char>,
    attachments: Seq<Seq<char>>,
    keyboard: Option<Seq<char>>,
    random_id: int,
) -> Seq<(Seq<char>, Seq<char>)> {
    let base = seq![("peer_id"@, int_to_dec(peer_id))];
    let with_message = if message.len() > 0 {
        base.push(("message"@, message))
    } else {
        base
    };
    let with_attachment = if attachments.len() > 0 {
        with_message.push(("attachment"@, join_commas(attachments)))
    } else {
        with_message
    };
    let with_keyboard = match keyboard {
        Some(k) => with_attachment.push(("keyboard"@, k)),
        None => with_attachment,
    };
    with_keyboard.push(("random_id"@, int_to_dec(random_id)))
}

/// Builds the parameter list of one "send message" call from the response's
/// fields, an already-serialized keyboard, and the call's dedup token.
pub fn build_send_params(
    peer_id: i64,
    message: &String,
    attachments: &Vec<String>,
    keyboard_json: Option<String>,
    random_id: i32,
) -> (p: Params)
    ensures
        p@ == send_param_seq(
            peer_id as int,
            message@,
            seq_of_views(attachments@),
            opt_view(keyboard_json),
            random_id as int,
        ),
{
    let mut p = Params::new();
    p.insert(String::from_str("peer_id"), i64_to_dec(peer_id));
    if !message.as_str().is_empty() {
        p.insert(String::from_str("message"), message.clone());
    }
    if attachments.len() > 0 {
        p.insert(String::from_str("attachment"), join_commas_exec(attachments));
    }
    let ghost before_keyboard = p@;
    match keyboard_json {
        Some(k) => {
            p.insert(String::from_str("keyboard"), k);
        },
        None => {},
    }
    p.insert(String::from_str("random_id"), i32_to_dec(random_id));
    proof {
        assert(p@ =~= send_param_seq(
            peer_id as int,
            message@,
            seq_of_views(attachments@),
            opt_view(keyboard_json),
            random_id as int,
        ));
    }
    p
}

/// Law: a send with empty text, no attachments and no keyboard still carries
/// exactly the addressing and dedup parameters, and nothing else.
pub proof fn lemma_empty_response_params(peer_id: int, random_id: int)
    ensures
        send_param_seq(peer_id, Seq::empty(), Seq::empty(), None, random_id) =~= seq![
            ("peer_id"@, int_to_dec(peer_id)),
            ("random_id"@, int_to_dec(random_id)),
        ],
{
}

/// Law: a single attachment is passed as exactly its own text, with no comma
/// added before or after it.
pub proof fn lemma_single_attachment(a: Seq<char>)
    ensures
        join_commas(seq![a]) == a,
{
}

/// Law: two attachments are joined with exactly one comma between them.
pub proof fn lemma_two_attachments(a: Seq<char>, b: Seq<char>)
    ensures
        join_commas(seq![a, b]) == a + seq![','] + b,
{
    let parts = seq![a, b];
    assert(parts.drop_last() =~= seq![a]);
    assert(parts.last() == b);
    assert(join_commas(seq![a]) == a);
    assert(join_commas(parts) == join_commas(seq![a]) + seq![','] + b);
}

/// Law: two sends of the same unchanged response differ only in the dedup
/// token: every parameter but the final `random_id` is identical, and
/// distinct tokens give distinct `random_id` values.
pub proof fn lemma_resend_differs_only_in_random_id(
    peer_id: int,
    message: Seq<char>,
    attachments: Seq<Seq<char>>,
    keyboard: Option<Seq<char>>,
    r1: int,
    r2: int,
)
    ensures
        send_param_seq(peer_id, message, attachments, keyboard, r1).drop_last()
            == send_param_seq(peer_id, message, attachments, keyboard, r2).drop_last(),
        send_param_seq(peer_id, message, attachments, keyboard, r1).last()
            == ("random_id"@, int_to_dec(r1)),
        send_param_seq(peer_id, message, attachments, keyboard, r2).last()
            == ("random_id"@, int_to_dec(r2)),
        r1 != r2 ==> int_to_dec(r1) != int_to_dec(r2),
{
    let p1 = send_param_seq(peer_id, message, attachments, keyboard, r1);
    let p2 = send_param_seq(peer_id, message, attachments, keyboard, r2);
    assert(p1.drop_last() =~= p2.drop_last());
    if r1 != r2 && int_to_dec(r1) == int_to_dec(r2) {
        lemma_int_to_dec_injective(r1, r2);
    }
}

} // verus!
