//! The REST side of the API server: the status of an answer, and the
//! scenario records behind the scenario listing.

use vstd::prelude::*;
use crate::text::{concat2, concat3, str_chars, push_char, str_eq};

verus! {

/// The HTTP status and body text of an answer: 200 with `Ok` on success,
/// 405 with the error's text on failure.
pub open spec fn spec_status(result: Result<(), Seq<char>>) -> (u16, Seq<char>) {
    match result {
        Ok(()) => (200, "Ok"@),
        Err(m) => (405, m),
    }
}

/// Returns the HTTP status and body text of an answer.
pub fn status(result: Result<(), String>) -> (r: (u16, String))
    ensures
        (r.0, r.1@) == spec_status(match result {
            Ok(()) => Ok(()),
            Err(m) => Err(m@),
        }),
{
    match result {
        Ok(()) => (200, String::from_str("Ok")),
        Err(m) => (405, m),
    }
}

/// The index of the first `/` at or after `i` in `s`, if any.
pub open spec fn slash_from(s: Seq<char>, i: int) -> Option<int>
    decreases s.len() - i,
{
    if i < 0 || i >= s.len() {
        None
    } else if s[i] == '/' {
        Some(i)
    } else {
        slash_from(s, i + 1)
    }
}

/// The second `/`-separated field of a key, if the key has one.
pub open spec fn second_field(key: Seq<char>) -> Option<Seq<char>> {
    match slash_from(key, 0) {
        None => None,
        Some(i) => match slash_from(key, i + 1) {
            None => Some(key.subrange(i + 1, key.len() as int)),
            Some(j) => Some(key.subrange(i + 1, j)),
        },
    }
}

/// Returns the second `/`-separated field of a key, if it has one.
pub fn key_second_field(key: &str) -> (r: Option<String>)
    ensures
        match second_field(key@) {
            Some(f) => r matches Some(s) && s@ == f,
            None => r is None,
        },
{
    let cs = str_chars(key);
    let ghost s = key@;
    let n = cs.len();
    let mut i: usize = 0;
    while i < n && cs[i] != '/'
        invariant
            cs@ == s,
            n == s.len(),
            i <= n,
            slash_from(s, 0) == slash_from(s, i as int),
        decreases n - i,
    {
        i = i + 1;
    }
    if i == n {
        return None;
    }
    let mut field = String::new();
    let mut j: usize = i + 1;
    while j < n && cs[j] != '/'
        invariant
            cs@ == s,
            n == s.len(),
            i < j <= n,
            slash_from(s, 0) == Some(i as int),
            slash_from(s, i + 1) == slash_from(s, j as int),
            field@ == s.subrange(i + 1, j as int),
        decreases n - j,
    {
        push_char(&mut field, cs[j]);
        assert(field@ =~= s.subrange(i + 1, j + 1));
        j = j + 1;
    }
    Some(field)
}

/// The scenario names behind the stored keys: the second field of each key
/// that has one, each name once, in the order first seen.
pub open spec fn scenario_names_of(keys: Seq<String>) -> Seq<Seq<char>>
    decreases keys.len(),
{
    if keys.len() == 0 {
        Seq::empty()
    } else {
        let rest = scenario_names_of(keys.drop_last());
        match second_field(keys.last()@) {
            Some(name) => if rest.contains(name) {
                rest
            } else {
                rest.push(name)
            },
            None => rest,
        }
    }
}

/// Lists the scenario names behind the stored keys.
pub fn scenario_names(keys: &[String]) -> (r: Vec<String>)
    ensures
        r@.map_values(|s: String| s@) == scenario_names_of(keys@),
{
    let mut out: Vec<String> = Vec::new();
    let n = keys.len();
    let mut i: usize = 0;
    while i < n
        invariant
            n == keys@.len(),
            i <= n,
            out@.map_values(|s: String| s@) == scenario_names_of(keys@.take(i as int)),
        decreases n - i,
    {
        proof {
            assert(keys@.take(i + 1).drop_last() =~= keys@.take(i as int));
        }
        let ghost before = out@.map_values(|s: String| s@);
        match key_second_field(keys[i].as_str()) {
            Some(name) => {
                let mut seen = false;
                let mut j: usize = 0;
                while j < out.len()
                    invariant
                        j <= out@.len(),
                        before == out@.map_values(|s: String| s@),
                        seen <==> exists|k: int| 0 <= k < j && out@[k]@ == name@,
                    decreases out@.len() - j,
                {
                    if str_eq(out[j].as_str(), name.as_str()) {
                        seen = true;
                    }
                    j = j + 1;
                }
                proof {
                    if seen {
                        let k = choose|k: int| 0 <= k < j && out@[k]@ == name@;
                        assert(before[k] == name@);
                    } else {
                        assert forall|k: int| 0 <= k < before.len() implies before[k] != name@ by {
                            assert(before[k] == out@[k]@);
                        }
                    }
                }
                if !seen {
                    out.push(name);
                    assert(out@.map_values(|s: String| s@) =~= before.push(name@));
                }
            },
            None => {},
        }
        i = i + 1;
    }
    assert(keys@.take(n as int) =~= keys@);
    out
}

/// The keys of a scenario's fields: `scenario/{name}/{field}`.
pub open spec fn spec_scenario_field_key(name: Seq<char>, field: Seq<char>) -> Seq<char> {
    "scenario/"@ + name + "/"@ + field
}

/// Returns the key of a scenario's field.
pub fn scenario_field_key(name: &str, field: &str) -> (r: String)
    ensures
        r@ == spec_scenario_field_key(name@, field@),
{
    let mut k = concat3("scenario/", name, "/");
    k.append(field);
    k
}

/// The records that importing a scenario writes: its action, condition and
/// target under their keys, and the status `inactive`.
pub fn scenario_records(name: &str, action: &str, condition: &str, target: &str) -> (r: Vec<(String, String)>)
    ensures
        r@.len() == 4,
        r@[0].0@ == spec_scenario_field_key(name@, "action"@) && r@[0].1@ == action@,
        r@[1].0@ == spec_scenario_field_key(name@, "condition"@) && r@[1].1@ == condition@,
        r@[2].0@ == spec_scenario_field_key(name@, "status"@) && r@[2].1@ == "inactive"@,
        r@[3].0@ == spec_scenario_field_key(name@, "target"@) && r@[3].1@ == target@,
{
    let mut v: Vec<(String, String)> = Vec::new();
    v.push((scenario_field_key(name, "action"), String::from_str(action)));
    v.push((scenario_field_key(name, "condition"), String::from_str(condition)));
    v.push((scenario_field_key(name, "status"), String::from_str("inactive")));
    v.push((scenario_field_key(name, "target"), String::from_str(target)));
    v
}

/// The prefix of all of a scenario's records.
pub fn scenario_prefix(name: &str) -> (r: String)
    ensures
        r@ == "scenario/"@ + name@,
{
    concat2("scenario/", name)
}

} // verus!
