//! Application settings as a key-value store: the entity shapes, the typed
//! readings of a stored value (boolean, integer), the category map, and the
//! update-or-create decision behind upserts.  The storage calls themselves
//! are I/O and live outside the library.

use vstd::prelude::*;

verus! {

use vstd::string::StringExecFns;
use crate::relay::text_pairs_view;
use crate::text::{eq_ignore_ascii_case, str_eq_ignore_ascii_case};

/// A single application setting, as stored: every column optional, the way
/// the store reports them.
#[derive(Debug, Clone, PartialEq)]
pub struct Setting {
    /// Unique key of the setting.
    pub key: Option<String>,
    /// The configuration value, stored as a string.
    pub value: Option<String>,
    /// The data type of the value: "string", "boolean", "number", "json".
    pub value_type: Option<String>,
    /// Logical grouping of settings.
    pub category: Option<String>,
    /// Human-readable description of the setting's purpose.
    pub description: Option<String>,
    pub created_at: Option<String>,
    pub updated_at: Option<String>,
}

/// A setting to create.
#[derive(Debug, Clone, PartialEq)]
pub struct NewSetting {
    pub key: String,
    pub value: String,
    pub value_type: String,
    pub category: String,
    pub description: Option<String>,
}

/// An update of an existing setting's value.
#[derive(Debug, Clone, PartialEq)]
pub struct UpdateSetting {
    pub value: String,
}

/// What an upsert needs to create a setting that does not exist yet.
#[derive(Debug, Clone, PartialEq)]
pub struct UpsertOptions {
    pub value_type: String,
    pub category: String,
    pub description: String,
}

/// What an upsert decides to do once it knows whether the key exists.
#[derive(Debug, Clone, PartialEq)]
pub enum UpsertAction {
    /// The key exists: update its value.
    Update(UpdateSetting),
    /// The key does not exist: create it from the given options.
    Create(NewSetting),
}

/// The text of an optional string, absent meaning empty.
pub open spec fn opt_text_or_empty(o: Option<String>) -> Seq<char> {
    match o {
        Option::None => Seq::empty(),
        Option::Some(s) => s@,
    }
}

/// The message reported when a key has no setting.
pub open spec fn setting_missing_message(key: Seq<char>) -> Seq<char> {
    "Setting not found: "@ + key
}

/// The message reported when a stored value is not a boolean.
pub open spec fn invalid_bool_message(key: Seq<char>, value: Seq<char>) -> Seq<char> {
    "Invalid boolean value for "@ + key + ": "@ + value
}

/// The message reported when a stored value is not an integer.
pub open spec fn invalid_number_message(key: Seq<char>, value: Seq<char>) -> Seq<char> {
    "Invalid number value for "@ + key + ": "@ + value
}

/// The message reported when an upsert would have to create a setting but
/// was given no options.
pub open spec fn upsert_missing_options_message(key: Seq<char>) -> Seq<char> {
    "Cannot create setting '"@ + key + "': missing type and category information"@
}

/// An ASCII decimal digit.
pub open spec fn is_digit(c: char) -> bool {
    0x30 <= c as u32 <= 0x39
}

/// The numeric value of a decimal digit.
pub open spec fn digit_val(c: char) -> int {
    c as u32 - 0x30
}

/// The number the digit string denotes, most significant digit first.
pub open spec fn digits_value(s: Seq<char>) -> int
    decreases s.len(),
{
    if s.len() == 0 {
        0
    } else {
        digits_value(s.drop_last()) * 10 + digit_val(s.last())
    }
}

/// Whether the text opens with an explicit sign.
pub open spec fn has_sign(s: Seq<char>) -> bool {
    s.len() > 0 && (s[0] == '+' || s[0] == '-')
}

/// The text behind the optional sign.
pub open spec fn digits_part(s: Seq<char>) -> Seq<char> {
    if has_sign(s) {
        s.subrange(1, s.len() as int)
    } else {
        s
    }
}

/// The sign the text denotes.
pub open spec fn int_sign(s: Seq<char>) -> int {
    if s.len() > 0 && s[0] == '-' {
        -1
    } else {
        1
    }
}

/// An integer in text form: an optional sign followed by one or more
/// decimal digits.
pub open spec fn is_int_text(s: Seq<char>) -> bool {
    digits_part(s).len() > 0 && (forall|i: int|
        0 <= i < digits_part(s).len() ==> is_digit(digits_part(s)[i]))
}

/// The integer the text denotes.
pub open spec fn int_text_value(s: Seq<char>) -> int {
    int_sign(s) * digits_value(digits_part(s))
}

/// An integer in text form whose value fits a signed 64-bit integer.
pub open spec fn is_i64_text(s: Seq<char>) -> bool {
    is_int_text(s) && i64::MIN <= int_text_value(s) <= i64::MAX
}

/// A digit string denotes a non-negative number.
proof fn lemma_digits_value_nonneg(s: Seq<char>)
    requires
        forall|i: int| 0 <= i < s.len() ==> is_digit(s[i]),
    ensures
        digits_value(s) >= 0,
    decreases s.len(),
{
    if s.len() > 0 {
        lemma_digits_value_nonneg(s.drop_last());
    }
}

/// Dropping trailing digits never increases the denoted number.
proof fn lemma_digits_prefix_le(s: Seq<char>, j: int)
    requires
        forall|i: int| 0 <= i < s.len() ==> is_digit(s[i]),
        0 <= j <= s.len(),
    ensures
        digits_value(s.take(j)) <= digits_value(s),
    decreases s.len() - j,
{
    if j == s.len() {
        assert(s.take(j) =~= s);
    } else {
        assert(s.take(j + 1).drop_last() =~= s.take(j));
        lemma_digits_value_nonneg(s.take(j));
        lemma_digits_prefix_le(s, j + 1);
    }
}

/// Parses an optionally signed decimal integer, exactly as far as a signed
/// 64-bit value reaches: any other text, and any value out of range, gives
/// nothing.
pub fn parse_i64_text(s: &str) -> (r: Option<i64>)
    ensures
        r is Some <==> is_i64_text(s@),
        r matches Some(v) ==> v as int == int_text_value(s@),
{
    let n = s.unicode_len();
    if n == 0 {
        return None;
    }
    let c0 = s.get_char(0);
    let neg = c0 == '-';
    let start: usize = if c0 == '-' || c0 == '+' {
        1
    } else {
        0
    };
    if start == n {
        // A bare sign has no digits.
        return None;
    }
    proof {
        assert(digits_part(s@) =~= s@.subrange(start as int, n as int));
    }
    // Accumulate the magnitude negatively, so that the most negative value
    // is still representable.
    let mut acc: i64 = 0;
    let mut i: usize = start;
    while i < n
        invariant
            n == s@.len(),
            start <= i <= n,
            start < n,
            digits_part(s@) =~= s@.subrange(start as int, n as int),
            forall|j: int| start <= j < i ==> is_digit(s@[j]),
            acc <= 0,
            acc as int == -digits_value(s@.subrange(start as int, i as int)),
        decreases n - i,
    {
        let c = s.get_char(i);
        let u = c as u32;
        if !(0x30 <= u && u <= 0x39) {
            // A non-digit after the sign: not an integer at all.
            assert(!is_int_text(s@)) by {
                assert(digits_part(s@)[i - start] == s@[i as int]);
            }
            return None;
        }
        let d = (u - 0x30) as i64;
        proof {
            assert(s@.subrange(start as int, i + 1).drop_last() =~= s@.subrange(
                start as int,
                i as int,
            ));
            assert(s@.subrange(start as int, i + 1).last() == s@[i as int]);
        }
        let ghost prefix_plus = s@.subrange(start as int, i + 1);
        let stepped = match acc.checked_mul(10) {
            Some(a) => match a.checked_sub(d) {
                Some(b) => Some(b),
                None => None,
            },
            None => None,
        };
        match stepped {
            Some(a) => {
                acc = a;
            },
            None => {
                // The magnitude so far already exceeds the 64-bit range,
                // and further digits only grow it.
                proof {
                    assert(digits_value(prefix_plus) > 0x8000_0000_0000_0000);
                    if is_int_text(s@) {
                        lemma_digits_prefix_le(digits_part(s@), i + 1 - start as int);
                        assert(digits_part(s@).take(i + 1 - start as int) =~= prefix_plus);
                        lemma_digits_value_nonneg(digits_part(s@));
                    }
                }
                return None;
            },
        }
        i = i + 1;
    }
    proof {
        assert(s@.subrange(start as int, n as int) =~= digits_part(s@));
        assert(is_int_text(s@));
    }
    if neg {
        Some(acc)
    } else {
        if acc == i64::MIN {
            // The magnitude is one past the positive range.
            None
        } else {
            Some(-acc)
        }
    }
}

/// The settings repository; the storage calls themselves happen outside
/// the library, around the readings and decisions made here.
pub struct SettingsRepository;

impl SettingsRepository {
    /// The key-to-value pairs of a list of settings, absent fields read as
    /// empty strings, in order.
    pub open spec fn spec_category_pairs(s: Seq<Setting>) -> Seq<(Seq<char>, Seq<char>)> {
        s.map_values(
            |st: Setting| (opt_text_or_empty(st.key), opt_text_or_empty(st.value)),
        )
    }

    /// Flattens the settings of one category into key-to-value pairs.
    pub fn category_pairs(settings: &Vec<Setting>) -> (r: Vec<(String, String)>)
        ensures
            text_pairs_view(r@) == Self::spec_category_pairs(settings@),
    {
        let mut pairs: Vec<(String, String)> = Vec::new();
        let n = settings.len();
        for i in 0..n
            invariant
                n == settings@.len(),
                text_pairs_view(pairs@) == Self::spec_category_pairs(settings@.take(i as int)),
        {
            let key = match &settings[i].key {
                Some(k) => k.clone(),
                None => String::new(),
            };
            let value = match &settings[i].value {
                Some(v) => v.clone(),
                None => String::new(),
            };
            assert(key@ == opt_text_or_empty(settings@[i as int].key));
            assert(value@ == opt_text_or_empty(settings@[i as int].value));
            let ghost prev = pairs@;
            pairs.push((key, value));
            proof {
                let target = Self::spec_category_pairs(settings@.take(i + 1));
                let cur = text_pairs_view(pairs@);
                assert(text_pairs_view(prev) == Self::spec_category_pairs(
                    settings@.take(i as int),
                ));
                assert(text_pairs_view(prev).len() == prev.len());
                assert(Self::spec_category_pairs(settings@.take(i as int)).len() == i as int);
                assert(prev.len() == i as int);
                assert forall|j: int| 0 <= j < i + 1 implies cur[j] == target[j] by {
                    assert(settings@.take(i + 1)[j] == settings@[j]);
                    if j < i {
                        assert(pairs@[j] == prev[j]);
                        assert(cur[j] == (prev[j].0@, prev[j].1@));
                        assert(settings@.take(i as int)[j] == settings@[j]);
                        assert(text_pairs_view(prev)[j] == Self::spec_category_pairs(
                            settings@.take(i as int),
                        )[j]);
                    } else {
                        assert(pairs@[j] == (key, value));
                    }
                }
                assert(cur =~= target);
            }
        }
        proof {
            assert(settings@.take(n as int) =~= settings@);
        }
        pairs
    }

    /// Reads a setting as a boolean: `true` or `false` up to ASCII case,
    /// an absent value counting as the empty string.
    pub fn bool_setting_value(key: &str, setting: &Option<Setting>) -> (r: Result<bool, String>)
        ensures
            setting is None ==> (r matches Err(e) && e@ == setting_missing_message(key@)),
            setting matches Some(st) ==> {
                let v = opt_text_or_empty(st.value);
                &&& eq_ignore_ascii_case(v, "true"@) ==> r == Result::<bool, String>::Ok(true)
                &&& !eq_ignore_ascii_case(v, "true"@) && eq_ignore_ascii_case(v, "false"@)
                    ==> r == Result::<bool, String>::Ok(false)
                &&& !eq_ignore_ascii_case(v, "true"@) && !eq_ignore_ascii_case(v, "false"@) ==> (
                r matches Err(e) && e@ == invalid_bool_message(key@, v))
            },
    {
        match setting {
            None => Err(String::from_str("Setting not found: ").concat(key)),
            Some(st) => {
                let value = match &st.value {
                    Some(v) => v.clone(),
                    None => String::new(),
                };
                if str_eq_ignore_ascii_case(value.as_str(), "true") {
                    Ok(true)
                } else if str_eq_ignore_ascii_case(value.as_str(), "false") {
                    Ok(false)
                } else {
                    let message = String::from_str("Invalid boolean value for ").concat(
                        key,
                    ).concat(": ").concat(value.as_str());
                    Err(message)
                }
            },
        }
    }

    /// Reads a setting as a signed 64-bit integer, an absent value
    /// counting as the empty string.
    pub fn number_setting_value(key: &str, setting: &Option<Setting>) -> (r: Result<i64, String>)
        ensures
            setting is None ==> (r matches Err(e) && e@ == setting_missing_message(key@)),
            setting matches Some(st) ==> {
                let v = opt_text_or_empty(st.value);
                &&& is_i64_text(v) ==> (r matches Ok(x) && x as int == int_text_value(v))
                &&& !is_i64_text(v) ==> (r matches Err(e) && e@ == invalid_number_message(key@, v))
            },
    {
        match setting {
            None => Err(String::from_str("Setting not found: ").concat(key)),
            Some(st) => {
                let value = match &st.value {
                    Some(v) => v.clone(),
                    None => String::new(),
                };
                match parse_i64_text(value.as_str()) {
                    Some(x) => Ok(x),
                    None => {
                        let message = String::from_str("Invalid number value for ").concat(
                            key,
                        ).concat(": ").concat(value.as_str());
                        Err(message)
                    },
                }
            },
        }
    }

    /// Decides what an upsert does: update the value when the key exists;
    /// otherwise create the setting from the given options, and refuse the
    /// upsert when there are none to create it from.
    pub fn upsert_plan(key: &str, value: String, exists: bool, options: Option<UpsertOptions>)
        -> (r: Result<UpsertAction, String>)
        ensures
            exists ==> (r matches Ok(UpsertAction::Update(u)) && u.value == value),
            !exists && options is None ==> (r matches Err(e) && e@
                == upsert_missing_options_message(key@)),
            options matches Some(o) ==> (!exists ==> (r matches Ok(UpsertAction::Create(n))
                && n.key@ == key@ && n.value == value && n.value_type == o.value_type
                && n.category == o.category && (n.description matches Some(d) && d
                == o.description))),
    {
        if exists {
            Ok(UpsertAction::Update(UpdateSetting { value }))
        } else {
            match options {
                None => {
                    let message = String::from_str("Cannot create setting '").concat(key).concat(
                        "': missing type and category information",
                    );
                    Err(message)
                },
                Some(o) => {
                    Ok(
                        UpsertAction::Create(
                            NewSetting {
                                key: String::from_str(key),
                                value,
                                value_type: o.value_type,
                                category: o.category,
                                description: Some(o.description),
                            },
                        ),
                    )
                },
            }
        }
    }
}

} // verus!
