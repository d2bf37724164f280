//! DNS Activity (OCSF 4003).
use vstd::prelude::*;
use vstd::string::*;
use crate::convert::{Failure, fail, rejects, require, bounded, err, u16_field, str_len, utf8_len, join};
use crate::error::{SchemaError, SchemaErrorKind};
use crate::limits::{DNS_ANSWER_DATA_MAX, DNS_ANSWERS_MAX, DNS_HOSTNAME_MAX};
use crate::objects::{
    ProcessRef, first, is_wire_required_process_ref, required_process_ref_error, too_large,
    process_ref_valid, lemma_process_ref_round_trip, lemma_process_ref_wire_unique,
};
use crate::wire;

verus! {

#[derive(Debug, Clone, PartialEq, Eq)]
pub struct DnsActivity {
    pub actor: ProcessRef,
    /// `query.hostname`.
    pub hostname: String,
    /// `query.type`: numeric RR type (28 = AAAA).
    pub query_type: u16,
    pub action: DnsAction,
}

#[derive(Debug, Clone, PartialEq, Eq)]
pub enum DnsAction {
    Response {
        /// DNS response code, when the sensor could map the platform status.
        rcode: Option<u16>,
        /// Raw platform status (Windows: Win32/DNS status from event 3008).
        platform_status: Option<u32>,
        answers: Vec<DnsAnswer>,
    },
}

#[derive(Debug, Clone, PartialEq, Eq)]
pub struct DnsAnswer {
    /// Numeric RR type.
    pub rr_type: u16,
    pub data: String,
}

// ---- decimal text for answer indices ----

/// The decimal digit character for a value below 10.
pub open spec fn digit_char(d: nat) -> char {
    (('0' as u8) + d) as char
}

/// `n` in decimal, without leading zeros.
pub open spec fn decimal(n: nat) -> Seq<char>
    decreases n,
{
    if n < 10 {
        seq![digit_char(n)]
    } else {
        decimal(n / 10) + seq![digit_char(n % 10)]
    }
}

/// The number that a string of decimal digits reads as (most significant
/// digit first); a character that is not a digit makes it -1.
pub open spec fn decimal_value(s: Seq<char>) -> int
    decreases s.len(),
{
    if s.len() == 0 {
        0
    } else {
        let d = s.last();
        if '0' <= d && d <= '9' && decimal_value(s.drop_last()) >= 0 {
            decimal_value(s.drop_last()) * 10 + (d as int - '0' as int)
        } else {
            -1
        }
    }
}

/// The decimal text of an answer index reads back as that index, and it has
/// no leading zero (its first digit is `0` only for the index 0 itself).
pub proof fn lemma_decimal_reads_back(n: nat)
    ensures
        decimal(n).len() > 0,
        decimal_value(decimal(n)) == n,
        decimal(n)[0] == '0' ==> n == 0,
    decreases n,
{
    if n < 10 {
        assert(decimal(n).drop_last() =~= Seq::<char>::empty());
        assert(decimal(n).last() == digit_char(n));
        assert(decimal_value(decimal(n).drop_last()) == 0);
    } else {
        lemma_decimal_reads_back(n / 10);
        assert(decimal(n).drop_last() =~= decimal(n / 10));
        assert(decimal(n).last() == digit_char(n % 10));
        assert(decimal(n)[0] == decimal(n / 10)[0]);
        assert(n == (n / 10) * 10 + n % 10) by (nonlinear_arith);
        assert(n / 10 > 0 && n % 10 < 10) by (nonlinear_arith)
            requires n >= 10;
    }
}

fn digit(d: usize) -> (r: &'static str)
    requires
        d < 10,
    ensures
        r@ == seq![digit_char(d as nat)],
{
    proof {
        reveal_strlit("0");
        reveal_strlit("1");
        reveal_strlit("2");
        reveal_strlit("3");
        reveal_strlit("4");
        reveal_strlit("5");
        reveal_strlit("6");
        reveal_strlit("7");
        reveal_strlit("8");
        reveal_strlit("9");
    }
    match d {
        0 => "0",
        1 => "1",
        2 => "2",
        3 => "3",
        4 => "4",
        5 => "5",
        6 => "6",
        7 => "7",
        8 => "8",
        _ => "9",
    }
}

fn push_decimal(out: &mut String, n: usize)
    ensures
        final(out)@ == old(out)@ + decimal(n as nat),
    decreases n,
{
    if n < 10 {
        out.append(digit(n));
    } else {
        push_decimal(out, n / 10);
        out.append(digit(n % 10));
    }
}

/// `answers[i]`, the path of the answer at index `i`.
pub open spec fn answer_path(i: nat) -> Seq<char> {
    "answers["@ + decimal(i) + "]"@
}

fn answer_path_exec(i: usize) -> (r: String)
    ensures
        r@ == answer_path(i as nat),
{
    let mut s = String::from_str("answers[");
    push_decimal(&mut s, i);
    s.append("]");
    s
}

// ---- relation and checks ----

pub open spec fn is_wire_answer(w: wire::DnsAnswer, d: DnsAnswer) -> bool {
    w.rr_type == d.rr_type as u32 && w.data == d.data
}

pub open spec fn is_wire_answers(w: Seq<wire::DnsAnswer>, d: Seq<DnsAnswer>) -> bool {
    w.len() == d.len() && forall|i: int| 0 <= i < w.len() ==> is_wire_answer(#[trigger] w[i], d[i])
}

pub open spec fn is_wire_dns_activity(w: wire::DnsActivity, d: DnsActivity) -> bool {
    &&& is_wire_required_process_ref(w.actor, d.actor)
    &&& w.hostname == d.hostname
    &&& w.query_type == d.query_type as u32
    &&& match (w.activity, d.action) {
        (Some(wire::DnsActivityKind::Response(r)), DnsAction::Response { rcode, platform_status, answers }) => {
            &&& r.rcode == match rcode {
                Some(c) => Some(c as u32),
                None => None::<u32>,
            }
            &&& r.platform_status == platform_status
            &&& is_wire_answers(r.answers@, answers@)
        },
        _ => false,
    }
}

/// The checks of one answer at index `i`: its type must fit `u16`, its data
/// its limit.
pub open spec fn answer_error(a: wire::DnsAnswer, i: nat) -> Option<Failure> {
    if a.rr_type > u16::MAX {
        fail(answer_path(i), "type"@, SchemaErrorKind::Malformed)
    } else {
        too_large(a.data, DNS_ANSWER_DATA_MAX, answer_path(i), "data"@)
    }
}

/// The first failing answer at index `from` or later.
pub open spec fn answers_error(answers: Seq<wire::DnsAnswer>, from: nat) -> Option<Failure>
    decreases answers.len() - from,
{
    if from >= answers.len() {
        None
    } else {
        first(answer_error(answers[from as int], from), answers_error(answers, from + 1))
    }
}

pub open spec fn dns_response_error(r: wire::DnsResponse) -> Option<Failure> {
    if r.answers@.len() > DNS_ANSWERS_MAX {
        fail(""@, "answers"@, SchemaErrorKind::TooLarge)
    } else {
        first(
            match r.rcode {
                Some(c) => if c > u16::MAX {
                    fail(""@, "rcode"@, SchemaErrorKind::Malformed)
                } else {
                    None
                },
                None => None,
            },
            answers_error(r.answers@, 0),
        )
    }
}

/// The activity is checked first: an unknown (newer) activity reads as
/// `activity: Missing`, not as a missing class field.
pub open spec fn dns_activity_error(w: wire::DnsActivity) -> Option<Failure> {
    match w.activity {
        None => fail(""@, "activity"@, SchemaErrorKind::Missing),
        Some(wire::DnsActivityKind::Response(r)) => first(
            required_process_ref_error(w.actor, ""@, "actor.process"@),
            first(
                too_large(w.hostname, DNS_HOSTNAME_MAX, ""@, "query.hostname"@),
                first(
                    if w.query_type > u16::MAX {
                        fail(""@, "query.type"@, SchemaErrorKind::Malformed)
                    } else {
                        None
                    },
                    dns_response_error(r),
                ),
            ),
        ),
    }
}

proof fn lemma_answers_error_none(answers: Seq<wire::DnsAnswer>, from: nat, i: nat)
    requires
        answers_error(answers, from) is None,
        from <= i < answers.len(),
    ensures
        answer_error(answers[i as int], i) is None,
    decreases i - from,
{
    if from < i {
        lemma_answers_error_none(answers, from + 1, i);
    }
}

/// Checks every answer, in order, without taking them apart.
fn check_answers(answers: &Vec<wire::DnsAnswer>) -> (r: Result<(), SchemaError>)
    ensures
        match answers_error(answers@, 0) {
            Some(f) => rejects(r, f),
            None => r is Ok,
        },
{
    let mut i: usize = 0;
    while i < answers.len()
        invariant
            i <= answers@.len(),
            answers_error(answers@, 0) == answers_error(answers@, i as nat),
        decreases answers@.len() - i,
    {
        let a = &answers[i];
        if a.rr_type > 65535 {
            let path = answer_path_exec(i);
            return err(path.as_str(), "type", SchemaErrorKind::Malformed);
        }
        if str_len(&a.data) > DNS_ANSWER_DATA_MAX {
            let path = answer_path_exec(i);
            return err(path.as_str(), "data", SchemaErrorKind::TooLarge);
        }
        i += 1;
    }
    Ok(())
}

impl DnsActivity {
    pub fn to_wire(self) -> (r: wire::DnsActivity)
        ensures
            is_wire_dns_activity(r, self),
    {
        let DnsAction::Response { rcode, platform_status, answers } = self.action;
        let mut rest = answers;
        let ghost orig = rest@;
        let mut out: Vec<wire::DnsAnswer> = Vec::new();
        while rest.len() > 0
            invariant
                out@.len() + rest@.len() == orig.len(),
                rest@ == orig.subrange(out@.len() as int, orig.len() as int),
                is_wire_answers(out@, orig.subrange(0, out@.len() as int)),
            decreases rest@.len(),
        {
            let a = rest.remove(0);
            out.push(wire::DnsAnswer { rr_type: a.rr_type as u32, data: a.data });
        }
        assert(orig.subrange(0, out@.len() as int) =~= orig);
        let rcode = match rcode {
            Some(c) => Some(c as u32),
            None => None,
        };
        wire::DnsActivity {
            actor: Some(self.actor.to_wire()),
            hostname: self.hostname,
            query_type: self.query_type as u32,
            activity: Some(wire::DnsActivityKind::Response(wire::DnsResponse { rcode, platform_status, answers: out })),
        }
    }

    pub fn from_wire(w: wire::DnsActivity) -> (r: Result<Self, SchemaError>)
        ensures
            match dns_activity_error(w) {
                Some(f) => rejects(r, f),
                None => r matches Ok(d) && is_wire_dns_activity(w, d),
            },
    {
        let activity = require(w.activity, "", "activity")?;
        let actor = ProcessRef::required(w.actor, "", "actor.process")?;
        let hostname = bounded(w.hostname, DNS_HOSTNAME_MAX, "", "query.hostname")?;
        let query_type = u16_field(w.query_type, "", "query.type")?;
        let action = match activity {
            wire::DnsActivityKind::Response(r) => {
                if r.answers.len() > DNS_ANSWERS_MAX {
                    return err("", "answers", SchemaErrorKind::TooLarge);
                }
                let rcode = match r.rcode {
                    Some(c) => Some(u16_field(c, "", "rcode")?),
                    None => None,
                };
                check_answers(&r.answers)?;
                let ghost orig = r.answers@;
                let mut rest = r.answers;
                let mut out: Vec<DnsAnswer> = Vec::new();
                while rest.len() > 0
                    invariant
                        out@.len() + rest@.len() == orig.len(),
                        rest@ == orig.subrange(out@.len() as int, orig.len() as int),
                        is_wire_answers(orig.subrange(0, out@.len() as int), out@),
                        answers_error(orig, 0) is None,
                    decreases rest@.len(),
                {
                    let a = rest.remove(0);
                    proof {
                        lemma_answers_error_none(orig, 0, out@.len() as nat);
                    }
                    out.push(DnsAnswer { rr_type: a.rr_type as u16, data: a.data });
                }
                assert(orig.subrange(0, out@.len() as int) =~= orig);
                DnsAction::Response { rcode, platform_status: r.platform_status, answers: out }
            },
        };
        Ok(DnsActivity { actor, hostname, query_type, action })
    }
}


// ---------------------------------------------------------------- laws

/// Every string in the activity, and the number of answers, are within their
/// limits.
pub open spec fn dns_activity_valid(d: DnsActivity) -> bool {
    &&& process_ref_valid(d.actor)
    &&& utf8_len(d.hostname@) <= DNS_HOSTNAME_MAX
    &&& match d.action {
        DnsAction::Response { answers, .. } => {
            &&& answers@.len() <= DNS_ANSWERS_MAX
            &&& forall|i: int| 0 <= i < answers@.len() ==> utf8_len(#[trigger] answers@[i].data@) <= DNS_ANSWER_DATA_MAX
        },
    }
}

/// Two DNS activities that are equal field by field (the answers compared as
/// sequences).
pub open spec fn same_dns_activity(a: DnsActivity, b: DnsActivity) -> bool {
    &&& a.actor == b.actor
    &&& a.hostname == b.hostname
    &&& a.query_type == b.query_type
    &&& match (a.action, b.action) {
        (
            DnsAction::Response { rcode: c1, platform_status: s1, answers: x1 },
            DnsAction::Response { rcode: c2, platform_status: s2, answers: x2 },
        ) => c1 == c2 && s1 == s2 && x1@ == x2@,
    }
}

proof fn lemma_answers_round_trip(w: Seq<wire::DnsAnswer>, d: Seq<DnsAnswer>, from: nat)
    requires
        is_wire_answers(w, d),
        forall|i: int| 0 <= i < d.len() ==> utf8_len(#[trigger] d[i].data@) <= DNS_ANSWER_DATA_MAX,
    ensures
        answers_error(w, from) is None,
    decreases w.len() - from,
{
    if from < w.len() {
        assert(is_wire_answer(w[from as int], d[from as int]));
        lemma_answers_round_trip(w, d, from + 1);
    }
}

/// A DNS activity within its limits passes validation in its wire form.
pub proof fn lemma_dns_activity_round_trip(d: DnsActivity, w: wire::DnsActivity)
    requires
        dns_activity_valid(d),
        is_wire_dns_activity(w, d),
    ensures
        dns_activity_error(w) is None,
{
    lemma_process_ref_round_trip(d.actor, w.actor, ""@, "actor.process"@);
    match (w.activity, d.action) {
        (Some(wire::DnsActivityKind::Response(r)), DnsAction::Response { answers, .. }) => {
            lemma_answers_round_trip(r.answers@, answers@, 0);
        },
        _ => {},
    }
}

/// The wire form of a DNS activity determines it.
pub proof fn lemma_dns_activity_wire_unique(w: wire::DnsActivity, d1: DnsActivity, d2: DnsActivity)
    requires
        is_wire_dns_activity(w, d1),
        is_wire_dns_activity(w, d2),
    ensures
        same_dns_activity(d1, d2),
{
    lemma_process_ref_wire_unique(w.actor.unwrap(), d1.actor, d2.actor);
    match (w.activity, d1.action, d2.action) {
        (
            Some(wire::DnsActivityKind::Response(r)),
            DnsAction::Response { answers: x1, .. },
            DnsAction::Response { answers: x2, .. },
        ) => {
            assert forall|i: int| 0 <= i < x1@.len() implies x1@[i] == x2@[i] by {
                assert(is_wire_answer(r.answers@[i], x1@[i]));
                assert(is_wire_answer(r.answers@[i], x2@[i]));
            }
            assert(x1@ =~= x2@);
        },
        _ => {},
    }
}

} // verus!
