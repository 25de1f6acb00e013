//! Developer-only environment overrides.
//!
//! Overrides are governed by a closed allowlist; an unrecognized variable under
//! the reserved prefix is a hard error rather than a silent no-op. No override
//! carries a token, credential, or authorization URL.

use vstd::prelude::*;
use crate::config::model::{SchedulerConfig, ServiceConfig, TelemetryConfig};
use crate::config::validate::{config_refusal, validate, PathPolicy};
use crate::error::{answers, invalid, MirageError, Refusal};
use crate::text::{
    begins_with, chars_of, comes_before, decimal_value, digit, has_prefix, is_digit,
    lemma_before_irreflexive, lemma_before_total, lemma_before_transitive, parse_decimal,
    parsed_decimal, push_text, same_text, strictly_ordered, text_before, texts, unsigned,
};

verus! {

/// Prefix reserved for developer-only environment overrides.
pub const DEV_ENV_PREFIX: &'static str = "MIRAGE_DEV_";

/// Overrides the log retention of the telemetry section.
pub const ENV_LOG_RETENTION_DAYS: &'static str = "MIRAGE_DEV_LOG_RETENTION_DAYS";

/// Overrides the concurrent request limit of the scheduler section.
pub const ENV_MAX_CONCURRENT_REQUESTS: &'static str = "MIRAGE_DEV_MAX_CONCURRENT_REQUESTS";

/// Overrides the first-touch logging of the telemetry section.
pub const ENV_FIRST_TOUCH_LOGGING: &'static str = "MIRAGE_DEV_FIRST_TOUCH_LOGGING";

/// Closed allowlist of environment variables permitted to override
/// configuration fields. Nothing on this list can carry a secret.
pub const DEV_ENV_ALLOWLIST: [&'static str; 3] = [
    ENV_FIRST_TOUCH_LOGGING,
    ENV_LOG_RETENTION_DAYS,
    ENV_MAX_CONCURRENT_REQUESTS,
];

/// Whether a variable may override a configuration field.
pub open spec fn allowlisted(key: Seq<char>) -> bool {
    key == ENV_FIRST_TOUCH_LOGGING@ || key == ENV_LOG_RETENTION_DAYS@ || key
        == ENV_MAX_CONCURRENT_REQUESTS@
}

/// The names of a list that begin with a prefix, in their order.
pub open spec fn with_prefix(names: Seq<Seq<char>>, prefix: Seq<char>) -> Seq<Seq<char>>
    decreases names.len(),
{
    if names.len() == 0 {
        Seq::empty()
    } else if begins_with(names.last(), prefix) {
        with_prefix(names.drop_last(), prefix).push(names.last())
    } else {
        with_prefix(names.drop_last(), prefix)
    }
}

/// Read-only view of an environment.
pub trait EnvSource {
    /// The variables that are bound, with their values.
    spec fn bindings(&self) -> Map<Seq<char>, Seq<char>>;

    /// The names of the bound variables, in the order in which the environment
    /// lists them.
    spec fn names(&self) -> Seq<Seq<char>>;

    /// The value bound to `key`, if any.
    fn get(&self, key: &str) -> (value: Option<String>)
        ensures
            match value {
                Some(value) => self.bindings().dom().contains(key@) && self.bindings()[key@]
                    == value@,
                None => !self.bindings().dom().contains(key@),
            },
    ;

    /// Every bound variable name starting with `prefix`.
    fn keys_with_prefix(&self, prefix: &str) -> (keys: Vec<String>)
        ensures
            texts(keys@) == with_prefix(self.names(), prefix@),
            forall|key: Seq<char>| #[trigger]
                texts(keys@).contains(key) <==> self.bindings().dom().contains(key) && begins_with(
                    key,
                    prefix@,
                ),
    ;
}

/// In-memory environment. The variables are kept in the order of their names.
#[derive(Debug, PartialEq, Eq)]
pub struct MapEnv {
    vars: Vec<(String, String)>,
}

/// No name occurs twice, and each comes before those that follow it.
spec fn ordered(vars: Seq<(String, String)>) -> bool {
    forall|i: int, j: int|
        0 <= i < j < vars.len() ==> text_before(#[trigger] vars[i].0@, #[trigger] vars[j].0@)
}

/// Whether a name is bound at some place of the list.
spec fn binds(vars: Seq<(String, String)>, key: Seq<char>, at: int) -> bool {
    0 <= at < vars.len() && vars[at].0@ == key
}

/// The bindings of a list of variables.
spec fn bindings_of(vars: Seq<(String, String)>) -> Map<Seq<char>, Seq<char>> {
    Map::new(
        |key: Seq<char>| exists|i: int| binds(vars, key, i),
        |key: Seq<char>| vars[choose|i: int| binds(vars, key, i)].1@,
    )
}

/// The names of a list of variables.
spec fn names_of(vars: Seq<(String, String)>) -> Seq<Seq<char>> {
    vars.map_values(|var: (String, String)| var.0@)
}

proof fn lemma_names_ordered(vars: Seq<(String, String)>)
    requires
        ordered(vars),
    ensures
        strictly_ordered(names_of(vars)),
{
    assert forall|i: int, j: int| 0 <= i < j < vars.len() implies text_before(
        #[trigger] names_of(vars)[i],
        #[trigger] names_of(vars)[j],
    ) by {
        assert(text_before(vars[i].0@, vars[j].0@));
    }
}

/// What is chosen of an ordered list by a prefix is ordered.
proof fn lemma_prefixed_ordered(names: Seq<Seq<char>>, prefix: Seq<char>)
    requires
        strictly_ordered(names),
    ensures
        strictly_ordered(with_prefix(names, prefix)),
        forall|i: int|
            0 <= i < with_prefix(names, prefix).len() ==> names.contains(
                #[trigger] with_prefix(names, prefix)[i],
            ),
    decreases names.len(),
{
    if names.len() > 0 {
        let rest = names.drop_last();
        assert(strictly_ordered(rest)) by {
            assert forall|i: int, j: int| 0 <= i < j < rest.len() implies text_before(
                #[trigger] rest[i],
                #[trigger] rest[j],
            ) by {
                assert(text_before(names[i], names[j]));
            }
        }
        lemma_prefixed_ordered(rest, prefix);
        let chosen = with_prefix(rest, prefix);
        assert forall|i: int| 0 <= i < chosen.len() implies names.contains(#[trigger] chosen[i])
            && text_before(chosen[i], names.last()) by {
            assert(rest.contains(chosen[i]));
            let k = rest.index_of(chosen[i]);
            assert(names[k] == chosen[i]);
            assert(text_before(names[k], names[names.len() - 1]));
        }
        assert(names.contains(names.last())) by {
            assert(names[names.len() - 1] == names.last());
        }
    }
}

proof fn lemma_bound_at(vars: Seq<(String, String)>, at: int)
    requires
        ordered(vars),
        0 <= at < vars.len(),
    ensures
        bindings_of(vars).dom().contains(vars[at].0@),
        bindings_of(vars)[vars[at].0@] == vars[at].1@,
{
    let key = vars[at].0@;
    assert(binds(vars, key, at));
    let chosen = choose|i: int| binds(vars, key, i);
    if chosen != at {
        lemma_before_irreflexive(key);
    }
}

impl MapEnv {
    #[verifier::type_invariant]
    spec fn well_formed(self) -> bool {
        ordered(self.vars@)
    }

    /// Creates an empty environment.
    pub fn new() -> (env: MapEnv)
        ensures
            env.bindings() == Map::<Seq<char>, Seq<char>>::empty(),
            env.names() == Seq::<Seq<char>>::empty(),
    {
        let env = MapEnv { vars: Vec::new() };
        assert(env.bindings() == Map::<Seq<char>, Seq<char>>::empty());
        assert(env.names() == Seq::<Seq<char>>::empty());
        env
    }

    /// Binds `key` to `value` and returns the environment, which lists its names
    /// in ascending order, each once.
    pub fn with(self, key: &str, value: &str) -> (env: MapEnv)
        ensures
            env.bindings() == self.bindings().insert(key@, value@),
            strictly_ordered(env.names()),
            forall|name: Seq<char>| #[trigger]
                env.names().contains(name) <==> env.bindings().dom().contains(name),
    {
        proof {
            use_type_invariant(&self);
        }
        let ghost before = self.vars@;
        let mut at: usize = 0;
        while at < self.vars.len() && comes_before(self.vars[at].0.as_str(), key)
            invariant
                before == self.vars@,
                at <= before.len(),
                ordered(before),
                forall|i: int| 0 <= i < at ==> text_before(#[trigger] before[i].0@, key@),
            decreases before.len() - at,
        {
            at = at + 1;
        }
        let mut vars = self.vars;
        let replace = at < vars.len() && same_text(vars[at].0.as_str(), key);
        if replace {
            vars.remove(at);
        }
        let ghost kept = vars@;
        vars.insert(at, (key.to_owned(), value.to_owned()));
        let ghost after = vars@;
        proof {
            lemma_before_irreflexive(key@);
            if at < before.len() {
                lemma_before_total(before[at as int].0@, key@);
            }
            let skip: int = if replace {
                1
            } else {
                0
            };
            assert(after.len() == before.len() + 1 - skip);
            assert forall|i: int| 0 <= i < at implies #[trigger] after[i] == before[i] by {}
            assert forall|i: int| at < i < after.len() implies #[trigger] after[i] == before[i - 1
                + skip] by {}
            assert forall|i: int| at < i < after.len() implies text_before(
                key@,
                #[trigger] after[i].0@,
            ) by {
                let source = i - 1 + skip;
                if !replace {
                    if source > at {
                        lemma_before_transitive(key@, before[at as int].0@, before[source].0@);
                    }
                } else {
                    assert(text_before(before[at as int].0@, before[source].0@));
                }
            }
            assert(ordered(after)) by {
                assert forall|i: int, j: int| 0 <= i < j < after.len() implies text_before(
                    #[trigger] after[i].0@,
                    #[trigger] after[j].0@,
                ) by {
                    if i < at && j == at {
                        assert(text_before(before[i].0@, key@));
                    } else if i < at && j < at {
                        assert(text_before(before[i].0@, before[j].0@));
                    } else if i < at {
                        assert(text_before(before[i].0@, before[j - 1 + skip].0@));
                    } else if i > at {
                        assert(text_before(before[i - 1 + skip].0@, before[j - 1 + skip].0@));
                    }
                }
            }
            let new_map = bindings_of(after);
            let old_map = bindings_of(before).insert(key@, value@);
            assert forall|name: Seq<char>| new_map.dom().contains(name)
                == old_map.dom().contains(name) by {
                if new_map.dom().contains(name) {
                    let i = choose|i: int| binds(after, name, i);
                    if i < at {
                        assert(binds(before, name, i));
                    } else if i > at {
                        assert(binds(before, name, i - 1 + skip));
                    }
                }
                if old_map.dom().contains(name) {
                    if name == key@ {
                        assert(binds(after, name, at as int));
                    } else {
                        let i = choose|i: int| binds(before, name, i);
                        if i < at {
                            assert(binds(after, name, i));
                        } else {
                            assert(i >= at + skip);
                            assert(binds(after, name, i + 1 - skip));
                        }
                    }
                }
            }
            assert forall|name: Seq<char>| new_map.dom().contains(name) implies new_map[name]
                == old_map[name] by {
                let i = choose|i: int| binds(after, name, i);
                lemma_bound_at(after, i);
                if i < at {
                    lemma_bound_at(before, i);
                    assert(name != key@);
                } else if i > at {
                    lemma_bound_at(before, i - 1 + skip);
                    assert(name != key@);
                }
            }
            assert(new_map == old_map);
            lemma_names_ordered(after);
            assert forall|name: Seq<char>| #[trigger]
                names_of(after).contains(name) <==> new_map.dom().contains(name) by {
                if names_of(after).contains(name) {
                    assert(binds(after, name, names_of(after).index_of(name)));
                }
                if new_map.dom().contains(name) {
                    let i = choose|i: int| binds(after, name, i);
                    assert(names_of(after)[i] == name);
                }
            }
        }
        MapEnv { vars }
    }
}

impl Clone for MapEnv {
    fn clone(&self) -> (copy: MapEnv)
        ensures
            copy.bindings() == self.bindings(),
            copy.names() == self.names(),
    {
        proof {
            use_type_invariant(self);
        }
        let mut vars: Vec<(String, String)> = Vec::new();
        let mut at: usize = 0;
        while at < self.vars.len()
            invariant
                at == vars@.len(),
                at <= self.vars@.len(),
                forall|i: int|
                    0 <= i < at ==> (#[trigger] vars@[i]).0@ == self.vars@[i].0@ && vars@[i].1@
                        == self.vars@[i].1@,
            decreases self.vars@.len() - at,
        {
            vars.push((self.vars[at].0.as_str().to_owned(), self.vars[at].1.as_str().to_owned()));
            at = at + 1;
        }
        proof {
            assert(ordered(vars@)) by {
                assert forall|i: int, j: int| 0 <= i < j < vars@.len() implies text_before(
                    #[trigger] vars@[i].0@,
                    #[trigger] vars@[j].0@,
                ) by {
                    assert(text_before(self.vars@[i].0@, self.vars@[j].0@));
                }
            }
            let copied = bindings_of(vars@);
            let given = bindings_of(self.vars@);
            assert forall|key: Seq<char>| copied.dom().contains(key)
                == given.dom().contains(key) by {
                if copied.dom().contains(key) {
                    let i = choose|i: int| binds(vars@, key, i);
                    assert(binds(self.vars@, key, i));
                }
                if given.dom().contains(key) {
                    let i = choose|i: int| binds(self.vars@, key, i);
                    assert(binds(vars@, key, i));
                }
            }
            assert forall|key: Seq<char>| copied.dom().contains(key) implies copied[key]
                == given[key] by {
                let i = choose|i: int| binds(vars@, key, i);
                lemma_bound_at(vars@, i);
                lemma_bound_at(self.vars@, i);
            }
            assert(copied == given);
            assert(names_of(vars@) == names_of(self.vars@));
        }
        MapEnv { vars }
    }
}

impl Default for MapEnv {
    fn default() -> (env: MapEnv)
        ensures
            env.bindings() == Map::<Seq<char>, Seq<char>>::empty(),
            env.names() == Seq::<Seq<char>>::empty(),
    {
        MapEnv::new()
    }
}

impl EnvSource for MapEnv {
    closed spec fn bindings(&self) -> Map<Seq<char>, Seq<char>> {
        bindings_of(self.vars@)
    }

    closed spec fn names(&self) -> Seq<Seq<char>> {
        names_of(self.vars@)
    }

    fn get(&self, key: &str) -> (value: Option<String>) {
        proof {
            use_type_invariant(self);
        }
        let mut at: usize = 0;
        while at < self.vars.len()
            invariant
                at <= self.vars@.len(),
                ordered(self.vars@),
                forall|i: int| 0 <= i < at ==> #[trigger] self.vars@[i].0@ != key@,
            decreases self.vars@.len() - at,
        {
            if same_text(self.vars[at].0.as_str(), key) {
                proof {
                    lemma_bound_at(self.vars@, at as int);
                }
                return Some(self.vars[at].1.clone());
            }
            at = at + 1;
        }
        proof {
            if self.bindings().dom().contains(key@) {
                let i = choose|i: int| binds(self.vars@, key@, i);
                assert(self.vars@[i].0@ != key@);
            }
        }
        None
    }

    fn keys_with_prefix(&self, prefix: &str) -> (keys: Vec<String>)
        ensures
            strictly_ordered(texts(keys@)),
    {
        proof {
            use_type_invariant(self);
            lemma_names_ordered(self.vars@);
            lemma_prefixed_ordered(self.names(), prefix@);
        }
        let mut keys: Vec<String> = Vec::new();
        let mut at: usize = 0;
        assert(texts(keys@) == with_prefix(self.names().take(0), prefix@));
        while at < self.vars.len()
            invariant
                at <= self.vars@.len(),
                texts(keys@) == with_prefix(self.names().take(at as int), prefix@),
                forall|key: Seq<char>| #[trigger]
                    texts(keys@).contains(key) <==> (exists|i: int|
                        i < at && binds(self.vars@, key, i)) && begins_with(key, prefix@),
            decreases self.vars@.len() - at,
        {
            let ghost earlier = texts(keys@);
            let ghost name = self.vars@[at as int].0@;
            assert(binds(self.vars@, name, at as int));
            let hit = has_prefix(self.vars[at].0.as_str(), prefix);
            if hit {
                push_text(&mut keys, self.vars[at].0.as_str());
            }
            proof {
                assert(self.names().take(at + 1).drop_last() == self.names().take(at as int));
                assert(self.names().take(at + 1).last() == name);
                assert forall|key: Seq<char>| #[trigger]
                    texts(keys@).contains(key) <==> (exists|i: int|
                        i < at + 1 && binds(self.vars@, key, i)) && begins_with(key, prefix@) by {
                    if texts(keys@).contains(key) {
                        let k = texts(keys@).index_of(key);
                        if k < earlier.len() {
                            assert(earlier[k] == key);
                            assert(earlier.contains(key));
                            let i = choose|i: int| i < at && binds(self.vars@, key, i);
                            assert(i < at + 1 && binds(self.vars@, key, i));
                        } else {
                            assert(key == name);
                            assert(at < at + 1 && binds(self.vars@, key, at as int));
                        }
                    }
                    if (exists|i: int| i < at + 1 && binds(self.vars@, key, i)) && begins_with(
                        key,
                        prefix@,
                    ) {
                        let i = choose|i: int| i < at + 1 && binds(self.vars@, key, i);
                        if i < at {
                            assert(earlier.contains(key));
                            let k = earlier.index_of(key);
                            assert(texts(keys@)[k] == key);
                        } else {
                            assert(hit);
                            assert(texts(keys@)[earlier.len() as int] == key);
                        }
                    }
                }
            }
            at = at + 1;
        }
        proof {
            assert(self.names().take(at as int) == self.names());
            assert forall|key: Seq<char>| #[trigger]
                texts(keys@).contains(key) <==> self.bindings().dom().contains(key) && begins_with(
                    key,
                    prefix@,
                ) by {
                if self.bindings().dom().contains(key) {
                    let i = choose|i: int| binds(self.vars@, key, i);
                    assert(i < at && binds(self.vars@, key, i));
                }
            }
        }
        keys
    }
}

// ---------------------------------------------------------------------------
// Overrides
// ---------------------------------------------------------------------------

/// How many decimal digits a text begins with.
pub open spec fn leading_digits(text: Seq<char>) -> nat
    decreases text.len(),
{
    if text.len() == 0 || !is_digit(text[0]) {
        0
    } else {
        1 + leading_digits(text.skip(1))
    }
}

/// Why a text is not a decimal number of at most `limit`.
pub open spec fn decimal_failure(text: Seq<char>, limit: nat) -> Seq<char> {
    if text.len() == 0 {
        "cannot parse integer from empty string"@
    } else if decimal_value(unsigned(text).take(leading_digits(unsigned(text)) as int)) > limit {
        "number too large to fit in target type"@
    } else {
        "invalid digit found in string"@
    }
}

/// Why a number override is not accepted, if it is not.
pub open spec fn number_refusal(key: Seq<char>, raw: Seq<char>) -> Refusal {
    if parsed_decimal(raw, u32::MAX as nat) is Some {
        None
    } else {
        invalid(
            "environment variable "@ + key + " is not a u32: "@ + decimal_failure(
                raw,
                u32::MAX as nat,
            ),
        )
    }
}

/// Why a switch override is not accepted, if it is not.
pub open spec fn switch_refusal(key: Seq<char>, raw: Seq<char>) -> Refusal {
    if raw == "true"@ || raw == "false"@ {
        None
    } else {
        invalid("environment variable "@ + key + " must be exactly \"true\" or \"false\""@)
    }
}

proof fn lemma_leading_digits(text: Seq<char>, length: int)
    requires
        0 <= length <= text.len(),
        forall|i: int| 0 <= i < length ==> is_digit(#[trigger] text[i]),
        length < text.len() ==> !is_digit(text[length]),
    ensures
        leading_digits(text) == length,
    decreases text.len(),
{
    if length > 0 {
        assert(is_digit(text[0]));
        assert forall|i: int| 0 <= i < length - 1 implies is_digit(#[trigger] text.skip(1)[i]) by {
            assert(text.skip(1)[i] == text[i + 1]);
        }
        lemma_leading_digits(text.skip(1), length - 1);
    }
}

/// Parses a decimal override value.
pub fn parse_u32(key: &str, raw: &str) -> (value: Result<u32, MirageError>)
    ensures
        answers(value, number_refusal(key@, raw@)),
        value matches Ok(value) ==> parsed_decimal(raw@, u32::MAX as nat) == Some(value as nat),
{
    match parse_decimal(raw, u32::MAX as u64) {
        Some(value) => Ok(value as u32),
        None => {
            let mut message: String = "environment variable ".to_owned();
            message.append(key);
            message.append(" is not a u32: ");
            let chars = chars_of(raw);
            if chars.len() == 0 {
                message.append("cannot parse integer from empty string");
                return Err(MirageError::invalid_argument(message.as_str()));
            }
            let start: usize = if chars[0] == '+' {
                1
            } else {
                0
            };
            let ghost digits = unsigned(raw@);
            assert(raw@.skip(0) == raw@);
            assert(digits == raw@.skip(start as int));
            let mut at: usize = start;
            let mut value: u64 = 0;
            while at < chars.len() && digit(chars[at]) && value <= u32::MAX as u64
                invariant
                    start <= at <= chars@.len(),
                    chars@ == raw@,
                    digits == raw@.skip(start as int),
                    forall|i: int| 0 <= i < at - start ==> is_digit(#[trigger] digits[i]),
                    value == decimal_value(digits.take(at - start)),
                    value <= 10 * (u32::MAX as u64) + 9,
                decreases chars@.len() - at,
            {
                proof {
                    assert(digits[at - start] == chars@[at as int]);
                    assert(digits.take(at - start + 1).drop_last() == digits.take(at - start));
                    assert(digits.take(at - start + 1).last() == chars@[at as int]);
                }
                value = 10 * value + (chars[at] as u32 - 48) as u64;
                at = at + 1;
            }
            proof {
                lemma_scan(digits, at - start, u32::MAX as nat);
                if at < chars@.len() {
                    assert(digits[at - start] == chars@[at as int]);
                }
            }
            if value > u32::MAX as u64 {
                message.append("number too large to fit in target type");
            } else {
                message.append("invalid digit found in string");
            }
            Err(MirageError::invalid_argument(message.as_str()))
        },
    }
}

/// A scan that stops at the first character that is no digit, or once the value
/// is over the limit, tells whether the leading digits are over the limit.
proof fn lemma_scan(digits: Seq<char>, at: int, limit: nat)
    requires
        0 <= at <= digits.len(),
        forall|i: int| 0 <= i < at ==> is_digit(#[trigger] digits[i]),
        at < digits.len() ==> (!is_digit(digits[at]) || decimal_value(digits.take(at)) > limit),
    ensures
        (decimal_value(digits.take(leading_digits(digits) as int)) > limit) == (decimal_value(
            digits.take(at),
        ) > limit),
    decreases digits.len() - at,
{
    if at < digits.len() && is_digit(digits[at]) {
        assert(digits.take(at + 1).drop_last() == digits.take(at));
        assert(digits.take(at + 1).last() == digits[at]);
        lemma_scan(digits, at + 1, limit);
    } else {
        lemma_leading_digits(digits, at);
    }
}

/// Parses a canonical `true`/`false` override value.
pub fn parse_bool(key: &str, raw: &str) -> (value: Result<bool, MirageError>)
    ensures
        answers(value, switch_refusal(key@, raw@)),
        value matches Ok(value) ==> value == (raw@ == "true"@),
{
    proof {
        reveal_strlit("true");
        reveal_strlit("false");
    }
    if same_text(raw, "true") {
        return Ok(true);
    }
    if same_text(raw, "false") {
        return Ok(false);
    }
    let mut message: String = "environment variable ".to_owned();
    message.append(key);
    message.append(" must be exactly \"true\" or \"false\"");
    Err(MirageError::invalid_argument(message.as_str()))
}

/// Whether a variable is under the reserved prefix but not on the allowlist.
pub open spec fn unlisted(key: Seq<char>) -> bool {
    begins_with(key, DEV_ENV_PREFIX@) && !allowlisted(key)
}

/// The first variable of a list that is under the reserved prefix but not on the
/// allowlist.
pub open spec fn first_unlisted(names: Seq<Seq<char>>) -> Option<Seq<char>>
    decreases names.len(),
{
    if names.len() == 0 {
        None
    } else if first_unlisted(names.drop_last()) is Some {
        first_unlisted(names.drop_last())
    } else if unlisted(names.last()) {
        Some(names.last())
    } else {
        None
    }
}

proof fn lemma_first_of_prefixed(names: Seq<Seq<char>>)
    ensures
        first_unlisted(with_prefix(names, DEV_ENV_PREFIX@)) == first_unlisted(names),
    decreases names.len(),
{
    if names.len() > 0 {
        lemma_first_of_prefixed(names.drop_last());
        let rest = with_prefix(names.drop_last(), DEV_ENV_PREFIX@);
        assert(rest.push(names.last()).drop_last() == rest);
    }
}

/// Once an unlisted variable is found, what follows it changes nothing.
proof fn lemma_first_stays(names: Seq<Seq<char>>, count: int)
    requires
        0 <= count <= names.len(),
        first_unlisted(names.take(count)) is Some,
    ensures
        first_unlisted(names) == first_unlisted(names.take(count)),
    decreases names.len(),
{
    if count == names.len() {
        assert(names.take(count) == names);
    } else {
        assert(names.drop_last().take(count) == names.take(count));
        lemma_first_stays(names.drop_last(), count);
    }
}

/// The unlisted variable that is reported stands in the list, and every variable
/// that stands before it is not an unlisted one. In a list in ascending order no
/// unlisted variable comes before it.
pub proof fn law_reported_variable_is_the_first(names: Seq<Seq<char>>)
    ensures
        match first_unlisted(names) {
            Some(key) => {
                &&& unlisted(key)
                &&& exists|at: int| {
                    &&& 0 <= at < names.len()
                    &&& #[trigger] names[at] == key
                    &&& forall|i: int| 0 <= i < at ==> !unlisted(#[trigger] names[i])
                }
                &&& strictly_ordered(names) ==> forall|i: int|
                    0 <= i < names.len() && unlisted(#[trigger] names[i]) ==> !text_before(
                        names[i],
                        key,
                    )
            },
            None => forall|i: int| 0 <= i < names.len() ==> !unlisted(#[trigger] names[i]),
        },
    decreases names.len(),
{
    if names.len() > 0 {
        let rest = names.drop_last();
        law_reported_variable_is_the_first(rest);
        if first_unlisted(rest) is Some {
            let key = first_unlisted(rest)->Some_0;
            let at = choose|at: int| {
                &&& 0 <= at < rest.len()
                &&& #[trigger] rest[at] == key
                &&& forall|i: int| 0 <= i < at ==> !unlisted(#[trigger] rest[i])
            };
            assert(names[at] == key);
            assert forall|i: int| 0 <= i < at implies !unlisted(#[trigger] names[i]) by {
                assert(rest[i] == names[i]);
            }
            if strictly_ordered(names) {
                assert forall|i: int| 0 <= i < names.len() && unlisted(
                    #[trigger] names[i],
                ) implies !text_before(names[i], key) by {
                    lemma_before_irreflexive(key);
                    if i > at && text_before(names[i], key) {
                        lemma_before_transitive(names[i], key, names[i]);
                        lemma_before_irreflexive(names[i]);
                    }
                }
            }
        } else {
            assert forall|i: int| 0 <= i < rest.len() implies !unlisted(#[trigger] names[i]) by {
                assert(rest[i] == names[i]);
            }
            if unlisted(names.last()) {
                assert(names[names.len() - 1] == names.last());
                lemma_before_irreflexive(names.last());
            }
        }
    }
}

/// Whether an environment binds a variable under the reserved prefix that is
/// not on the allowlist.
pub open spec fn binds_unlisted(bindings: Map<Seq<char>, Seq<char>>, key: Seq<char>) -> bool {
    bindings.dom().contains(key) && unlisted(key)
}

/// The message about a variable that is not on the allowlist.
pub open spec fn unlisted_message(key: Seq<char>) -> Seq<char> {
    "environment variable "@ + key + " uses the reserved "@ + DEV_ENV_PREFIX@
        + " prefix but is not on the developer override allowlist"@
}

/// A configuration with the overrides of an environment.
pub open spec fn overridden(
    config: ServiceConfig,
    bindings: Map<Seq<char>, Seq<char>>,
) -> ServiceConfig {
    ServiceConfig {
        telemetry: TelemetryConfig {
            log_retention_days: if bindings.dom().contains(ENV_LOG_RETENTION_DAYS@) {
                parsed_decimal(bindings[ENV_LOG_RETENTION_DAYS@], u32::MAX as nat)->Some_0 as u32
            } else {
                config.telemetry.log_retention_days
            },
            first_touch_logging: if bindings.dom().contains(ENV_FIRST_TOUCH_LOGGING@) {
                bindings[ENV_FIRST_TOUCH_LOGGING@] == "true"@
            } else {
                config.telemetry.first_touch_logging
            },
            ..config.telemetry
        },
        scheduler: SchedulerConfig {
            max_concurrent_requests: if bindings.dom().contains(ENV_MAX_CONCURRENT_REQUESTS@) {
                parsed_decimal(
                    bindings[ENV_MAX_CONCURRENT_REQUESTS@],
                    u32::MAX as nat,
                )->Some_0 as u32
            } else {
                config.scheduler.max_concurrent_requests
            },
            ..config.scheduler
        },
        ..config
    }
}

/// Why the overrides of an environment without unlisted variables are not
/// applied, if they are not.
pub open spec fn override_refusal(
    config: ServiceConfig,
    bindings: Map<Seq<char>, Seq<char>>,
    policy: PathPolicy,
) -> Refusal {
    if bindings.dom().contains(ENV_LOG_RETENTION_DAYS@) && number_refusal(
        ENV_LOG_RETENTION_DAYS@,
        bindings[ENV_LOG_RETENTION_DAYS@],
    ) is Some {
        number_refusal(ENV_LOG_RETENTION_DAYS@, bindings[ENV_LOG_RETENTION_DAYS@])
    } else if bindings.dom().contains(ENV_MAX_CONCURRENT_REQUESTS@) && number_refusal(
        ENV_MAX_CONCURRENT_REQUESTS@,
        bindings[ENV_MAX_CONCURRENT_REQUESTS@],
    ) is Some {
        number_refusal(ENV_MAX_CONCURRENT_REQUESTS@, bindings[ENV_MAX_CONCURRENT_REQUESTS@])
    } else if bindings.dom().contains(ENV_FIRST_TOUCH_LOGGING@) && switch_refusal(
        ENV_FIRST_TOUCH_LOGGING@,
        bindings[ENV_FIRST_TOUCH_LOGGING@],
    ) is Some {
        switch_refusal(ENV_FIRST_TOUCH_LOGGING@, bindings[ENV_FIRST_TOUCH_LOGGING@])
    } else {
        config_refusal(overridden(config, bindings), policy)
    }
}

fn is_allowlisted(key: &str) -> (yes: bool)
    ensures
        yes == allowlisted(key@),
{
    same_text(key, ENV_FIRST_TOUCH_LOGGING) || same_text(key, ENV_LOG_RETENTION_DAYS) || same_text(
        key,
        ENV_MAX_CONCURRENT_REQUESTS,
    )
}

/// Applies developer-only environment overrides, then revalidates. A rejected
/// override leaves the configuration untouched rather than half-modified. Of the
/// variables that are refused, the first that the environment lists is reported.
pub fn apply_env_overrides<E: EnvSource>(
    config: &mut ServiceConfig,
    env: &E,
    policy: PathPolicy,
) -> (outcome: Result<(), MirageError>)
    ensures
        outcome is Err ==> *final(config) == *old(config),
        outcome is Ok ==> *final(config) == overridden(*old(config), env.bindings())
            && config_refusal(*final(config), policy) is None,
        match first_unlisted(env.names()) {
            Some(key) => binds_unlisted(env.bindings(), key) && answers(
                outcome,
                invalid(unlisted_message(key)),
            ),
            None => (forall|key: Seq<char>| !(#[trigger] binds_unlisted(env.bindings(), key)))
                && answers(outcome, override_refusal(*old(config), env.bindings(), policy)),
        },
{
    let ghost bindings = env.bindings();
    let keys = env.keys_with_prefix(DEV_ENV_PREFIX);
    proof {
        lemma_first_of_prefixed(env.names());
    }
    let mut at: usize = 0;
    while at < keys.len()
        invariant
            at <= keys@.len(),
            bindings == env.bindings(),
            *config == *old(config),
            forall|key: Seq<char>| #[trigger]
                texts(keys@).contains(key) <==> bindings.dom().contains(key) && begins_with(
                    key,
                    DEV_ENV_PREFIX@,
                ),
            forall|i: int| 0 <= i < at ==> allowlisted(#[trigger] texts(keys@)[i]),
            first_unlisted(env.names()) == first_unlisted(texts(keys@)),
            first_unlisted(texts(keys@).take(at as int)) is None,
        decreases keys@.len() - at,
    {
        let ghost key = texts(keys@)[at as int];
        proof {
            assert(texts(keys@).take(at + 1).drop_last() == texts(keys@).take(at as int));
            assert(texts(keys@).take(at + 1).last() == key);
        }
        if !is_allowlisted(keys[at].as_str()) {
            proof {
                assert(texts(keys@).contains(key));
                assert(binds_unlisted(env.bindings(), key));
                lemma_first_stays(texts(keys@), at + 1);
            }
            let mut message: String = "environment variable ".to_owned();
            message.append(keys[at].as_str());
            message.append(" uses the reserved ");
            message.append(DEV_ENV_PREFIX);
            message.append(" prefix but is not on the developer override allowlist");
            assert(message@ == unlisted_message(key));
            return Err(MirageError::invalid_argument(message.as_str()));
        }
        at = at + 1;
    }
    assert(texts(keys@).take(at as int) == texts(keys@));
    assert(forall|key: Seq<char>| !(#[trigger] binds_unlisted(env.bindings(), key))) by {
        assert forall|key: Seq<char>| !(#[trigger] binds_unlisted(env.bindings(), key)) by {
            if binds_unlisted(env.bindings(), key) {
                assert(texts(keys@).contains(key));
                let i = texts(keys@).index_of(key);
                assert(allowlisted(texts(keys@)[i]));
            }
        }
    }
    let mut candidate = config.duplicate();
    if let Some(raw) = env.get(ENV_LOG_RETENTION_DAYS) {
        candidate.telemetry.log_retention_days = parse_u32(ENV_LOG_RETENTION_DAYS, raw.as_str())?;
    }
    if let Some(raw) = env.get(ENV_MAX_CONCURRENT_REQUESTS) {
        candidate.scheduler.max_concurrent_requests =
        parse_u32(ENV_MAX_CONCURRENT_REQUESTS, raw.as_str())?;
    }
    if let Some(raw) = env.get(ENV_FIRST_TOUCH_LOGGING) {
        candidate.telemetry.first_touch_logging =
        parse_bool(ENV_FIRST_TOUCH_LOGGING, raw.as_str())?;
    }
    assert(candidate == overridden(*old(config), bindings));
    validate(&candidate, policy)?;
    *config = candidate;
    Ok(())
}

/// An environment without reserved variables changes nothing of a valid
/// configuration.
pub proof fn law_no_overrides_change_nothing(
    config: ServiceConfig,
    bindings: Map<Seq<char>, Seq<char>>,
    policy: PathPolicy,
)
    requires
        forall|key: Seq<char>| #[trigger]
            bindings.dom().contains(key) ==> !begins_with(key, DEV_ENV_PREFIX@),
        config_refusal(config, policy) is None,
    ensures
        forall|key: Seq<char>| !(#[trigger] binds_unlisted(bindings, key)),
        overridden(config, bindings) == config,
        override_refusal(config, bindings, policy) is None,
{
    law_allowlist_is_prefixed();
    assert(overridden(config, bindings) == config);
}

/// Every variable on the allowlist is under the reserved prefix.
pub proof fn law_allowlist_is_prefixed()
    ensures
        begins_with(ENV_FIRST_TOUCH_LOGGING@, DEV_ENV_PREFIX@),
        begins_with(ENV_LOG_RETENTION_DAYS@, DEV_ENV_PREFIX@),
        begins_with(ENV_MAX_CONCURRENT_REQUESTS@, DEV_ENV_PREFIX@),
{
    reveal_strlit("MIRAGE_DEV_");
    reveal_strlit("MIRAGE_DEV_LOG_RETENTION_DAYS");
    reveal_strlit("MIRAGE_DEV_MAX_CONCURRENT_REQUESTS");
    reveal_strlit("MIRAGE_DEV_FIRST_TOUCH_LOGGING");
    assert(ENV_FIRST_TOUCH_LOGGING@.take(11) == DEV_ENV_PREFIX@);
    assert(ENV_LOG_RETENTION_DAYS@.take(11) == DEV_ENV_PREFIX@);
    assert(ENV_MAX_CONCURRENT_REQUESTS@.take(11) == DEV_ENV_PREFIX@);
}

} // verus!
