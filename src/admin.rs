//! Names of listed resources as the dashboard shows them, derived from the
//! qualified names the admin service returns.

use vstd::prelude::*;

use crate::resources::{Consumer, Namespace, Subscription, Topic};
use crate::text::{chars_of, push_char};

verus! {

/// `p` starts `s`.
pub open spec fn starts_with(s: Seq<char>, p: Seq<char>) -> bool {
    p.len() <= s.len() && s.subrange(0, p.len() as int) == p
}

/// The rest of `s` after `p` when `s` starts with `p`, else `None`.
pub fn rest_after(s: &str, p: &str) -> (r: Option<String>)
    ensures
        match r {
            Some(t) => starts_with(s@, p@) && t@ == s@.subrange(p@.len() as int, s@.len() as int),
            None => !starts_with(s@, p@),
        },
{
    let x = chars_of(s);
    let y = chars_of(p);
    if y.len() > x.len() {
        return None;
    }
    let mut i: usize = 0;
    while i < y.len()
        invariant
            x@ == s@,
            y@ == p@,
            y@.len() <= x@.len(),
            i <= y@.len(),
            forall|j: int| 0 <= j < i ==> x@[j] == y@[j],
        decreases y@.len() - i,
    {
        if x[i] != y[i] {
            proof {
                assert(s@.subrange(0, p@.len() as int)[i as int] != p@[i as int]);
            }
            return None;
        }
        i = i + 1;
    }
    proof {
        assert(s@.subrange(0, p@.len() as int) =~= p@);
    }
    let mut t = String::new();
    let mut k: usize = y.len();
    while k < x.len()
        invariant
            x@ == s@,
            y@.len() <= k <= x@.len(),
            t@ == s@.subrange(y@.len() as int, k as int),
        decreases x@.len() - k,
    {
        proof {
            assert(s@.subrange(y@.len() as int, k + 1) == s@.subrange(y@.len() as int, k as int).push(
                s@[k as int],
            ));
        }
        push_char(&mut t, x[k]);
        k = k + 1;
    }
    Some(t)
}

/// A namespace's short name: `tenant/` taken off the front when present.
pub open spec fn namespace_name(tenant: Seq<char>, full: Seq<char>) -> Seq<char> {
    let p = tenant.push('/');
    if starts_with(full, p) {
        full.subrange(p.len() as int, full.len() as int)
    } else {
        full
    }
}

/// What follows the last `/`, or all of `s` when it has none.
pub open spec fn last_segment(s: Seq<char>) -> Seq<char>
    decreases s.len(),
{
    if s.len() == 0 {
        Seq::empty()
    } else if s.last() == '/' {
        Seq::empty()
    } else {
        last_segment(s.drop_last()).push(s.last())
    }
}

/// The namespace listed as `full` under `tenant`.
pub fn namespace_from(tenant: &str, full: &str) -> (r: Namespace)
    ensures
        r.name@ == namespace_name(tenant@, full@),
{
    let mut p = tenant.to_owned();
    push_char(&mut p, '/');
    match rest_after(full, p.as_str()) {
        Some(rest) => Namespace { name: rest },
        None => Namespace { name: full.to_owned() },
    }
}

/// The topic with fully qualified name `fqn`, named by its last segment.
pub fn topic_from(fqn: &str) -> (r: Topic)
    ensures
        r.name@ == last_segment(fqn@),
        r.fqn@ == fqn@,
{
    let mut name = String::new();
    for c in it: fqn.chars()
        invariant
            it.seq() == fqn@,
            name@ == last_segment(fqn@.subrange(0, it.index() as int)),
    {
        proof {
            let k = it.index() as int;
            assert(fqn@.subrange(0, k + 1).drop_last() == fqn@.subrange(0, k));
        }
        if c == '/' {
            name = String::new();
        } else {
            push_char(&mut name, c);
        }
    }
    proof {
        assert(fqn@.subrange(0, fqn@.len() as int) == fqn@);
    }
    Topic { name, fqn: fqn.to_owned() }
}

/// A subscription as listed in a topic's statistics; what the statistics
/// leave out reads as no type, an empty backlog and no consumers.
pub fn subscription_from(
    name: String,
    sub_type: Option<String>,
    backlog_size: Option<i64>,
    consumer_count: Option<usize>,
) -> (r: Subscription)
    ensures
        r.name == name,
        r.sub_type@ == (match sub_type {
            Some(t) => t@,
            None => "no_type"@,
        }),
        r.backlog_size == (match backlog_size {
            Some(b) => b,
            None => 0,
        }),
        r.consumer_count == (match consumer_count {
            Some(c) => c,
            None => 0,
        }),
{
    Subscription {
        name,
        sub_type: match sub_type {
            Some(t) => t,
            None => "no_type".to_owned(),
        },
        backlog_size: match backlog_size {
            Some(b) => b,
            None => 0,
        },
        consumer_count: match consumer_count {
            Some(c) => c,
            None => 0,
        },
    }
}

/// A consumer as listed in a subscription's statistics; what the
/// statistics leave out reads as unknown, with -1 unacknowledged messages.
pub fn consumer_from(
    name: Option<String>,
    unacked_messages: Option<i32>,
    connected_since: Option<String>,
) -> (r: Consumer)
    ensures
        r.name@ == (match name {
            Some(n) => n@,
            None => "Unknown name"@,
        }),
        r.unacked_messages == (match unacked_messages {
            Some(u) => u,
            None => -1i32,
        }),
        r.connected_since@ == (match connected_since {
            Some(c) => c@,
            None => "Unknown"@,
        }),
{
    Consumer {
        name: match name {
            Some(n) => n,
            None => "Unknown name".to_owned(),
        },
        unacked_messages: match unacked_messages {
            Some(u) => u,
            None => -1,
        },
        connected_since: match connected_since {
            Some(c) => c,
            None => "Unknown".to_owned(),
        },
    }
}

} // verus!
