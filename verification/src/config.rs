//! Configuration attached to the annotation: exactly two recognized boolean
//! flags, `option` (generate the by-value / by-shared-reference /
//! by-exclusive-reference projection family, default `true`) and `result`
//! (reserved, default `true`, no generation effect).

use vstd::prelude::*;

use crate::error::ProjectionError;

verus! {

/// The value attached to one configuration key, as the annotation front end
/// hands it over.
#[derive(Debug, Clone, Copy, PartialEq, Eq, Structural)]
pub enum ConfigValue {
    /// The key stands alone (`option`): shorthand for `true`.
    Word,
    /// An explicit boolean (`option = false`).
    Bool(bool),
    /// Anything else (a string, a number, a nested list): malformed.
    Other,
}

/// One `key = value` entry of the annotation's configuration list.
#[derive(Debug, Clone, PartialEq, Eq)]
pub struct ConfigItem {
    pub key: String,
    pub value: ConfigValue,
}

/// The mathematical value of a [`ConfigItem`].
#[verifier::ext_equal]
pub ghost struct ConfigItemV {
    pub key: Seq<char>,
    pub value: ConfigValue,
}

impl View for ConfigItem {
    type V = ConfigItemV;

    open spec fn view(&self) -> ConfigItemV {
        ConfigItemV { key: self.key@, value: self.value }
    }
}

/// The value of a configuration list, element by element.
pub open spec fn items_view(s: Seq<ConfigItem>) -> Seq<ConfigItemV> {
    Seq::new(s.len(), |i: int| s[i]@)
}

/// The two recognized keys.
pub open spec fn known_key(k: Seq<char>) -> bool {
    k == "option"@ || k == "result"@
}

/// The boolean a well-formed value denotes. (Irrelevant for `Other`, which a
/// well-formed list never holds.)
pub open spec fn value_bool(v: ConfigValue) -> bool {
    match v {
        ConfigValue::Word => true,
        ConfigValue::Bool(b) => b,
        ConfigValue::Other => true,
    }
}

/// A configuration list is well formed when every key is recognized, no key
/// occurs twice, and every value denotes a boolean.
pub open spec fn wf_config(items: Seq<ConfigItemV>) -> bool {
    &&& forall|i: int| 0 <= i < items.len() ==> known_key(#[trigger] items[i].key)
    &&& forall|i: int| 0 <= i < items.len() ==> !((#[trigger] items[i].value) is Other)
    &&& forall|i: int, j: int| 0 <= i < j < items.len() ==> items[i].key != items[j].key
}

/// The flag a well-formed configuration list gives to `key`: the value of its
/// entry for `key`, or `true` when it has none.
pub open spec fn flag_of(items: Seq<ConfigItemV>, key: Seq<char>) -> bool
    decreases items.len(),
{
    if items.len() == 0 {
        true
    } else if items[0].key == key {
        value_bool(items[0].value)
    } else {
        flag_of(items.drop_first(), key)
    }
}

/// Under a list whose entry for `key` (if any) sits at index `w`,
/// `flag_of` returns that entry's value.
pub proof fn lemma_flag_of_found(items: Seq<ConfigItemV>, key: Seq<char>, w: int)
    requires
        0 <= w < items.len(),
        items[w].key == key,
        forall|i: int| 0 <= i < w ==> items[i].key != key,
    ensures
        flag_of(items, key) == value_bool(items[w].value),
    decreases items.len(),
{
    if w > 0 {
        lemma_flag_of_found(items.drop_first(), key, w - 1);
    }
}

/// Under a list with no entry for `key`, `flag_of` returns the default.
pub proof fn lemma_flag_of_absent(items: Seq<ConfigItemV>, key: Seq<char>)
    requires
        forall|i: int| 0 <= i < items.len() ==> items[i].key != key,
    ensures
        flag_of(items, key),
    decreases items.len(),
{
    if items.len() > 0 {
        lemma_flag_of_absent(items.drop_first(), key);
    }
}

/// The recognized configuration: which projection families to generate.
#[derive(Debug, Clone, Copy, PartialEq, Eq, Structural)]
pub struct ProjectionArgs {
    /// Generate the optional-projection family (three ownership modes).
    pub option: bool,
    /// Reserved for a result-projection family; accepted, no generation effect.
    pub result: bool,
}

impl Default for ProjectionArgs {
    /// Both flags default to `true`.
    fn default() -> (r: Self)
        ensures
            r.option,
            r.result,
    {
        ProjectionArgs { option: true, result: true }
    }
}

impl ProjectionArgs {
    /// Read the configuration from the annotation's list of entries.
    ///
    /// Succeeds exactly on well-formed lists; an unrecognized key, a repeated
    /// key or a non-boolean value is a `MalformedConfig` failure. On success
    /// each flag is the value its entry gives it, or `true` when it has none.
    pub fn from_list(items: &Vec<ConfigItem>) -> (r: Result<ProjectionArgs, ProjectionError>)
        ensures
            r is Ok <==> wf_config(items_view(items@)),
            r is Ok ==> r->Ok_0.option == flag_of(items_view(items@), "option"@),
            r is Ok ==> r->Ok_0.result == flag_of(items_view(items@), "result"@),
            r is Err ==> r->Err_0 is MalformedConfig,
    {
        let key_option = String::from_str("option");
        let key_result = String::from_str("result");
        proof {
            reveal_strlit("option");
            reveal_strlit("result");
            assert("option"@[0] != "result"@[0]);
            assert("option"@ != "result"@);
        }
        let ghost iv = items_view(items@);
        let mut opt: Option<bool> = None;
        let mut res: Option<bool> = None;
        let n: usize = items.len();
        for k in 0..n
            invariant
                n == items@.len(),
                iv == items_view(items@),
                iv.len() == n,
                key_option@ == "option"@,
                key_result@ == "result"@,
                "option"@ != "result"@,
                forall|i: int| 0 <= i < k ==> known_key(#[trigger] iv[i].key),
                forall|i: int| 0 <= i < k ==> !((#[trigger] iv[i].value) is Other),
                forall|i: int, j: int| 0 <= i < j < k ==> iv[i].key != iv[j].key,
                opt is Some <==> exists|i: int| 0 <= i < k && #[trigger] iv[i].key == "option"@,
                res is Some <==> exists|i: int| 0 <= i < k && #[trigger] iv[i].key == "result"@,
                forall|i: int|
                    0 <= i < k && #[trigger] iv[i].key == "option"@ ==> opt == Some(
                        value_bool(iv[i].value),
                    ),
                forall|i: int|
                    0 <= i < k && #[trigger] iv[i].key == "result"@ ==> res == Some(
                        value_bool(iv[i].value),
                    ),
        {
            let item = &items[k];
            proof {
                assert(iv[k as int] == item@);
            }
            let value: bool = match item.value {
                ConfigValue::Word => true,
                ConfigValue::Bool(b) => b,
                ConfigValue::Other => {
                    proof {
                        assert(!wf_config(iv)) by {
                            assert(iv[k as int].value is Other);
                        }
                    }
                    return Err(ProjectionError::MalformedConfig);
                },
            };
            proof {
                assert(!(iv[k as int].value is Other));
            }
            if item.key == key_option {
                proof {
                    assert(iv[k as int].key == "option"@);
                }
                if opt.is_some() {
                    proof {
                        let i = choose|i: int| 0 <= i < k && #[trigger] iv[i].key == "option"@;
                        assert(iv[i].key == iv[k as int].key);
                        assert(!wf_config(iv));
                    }
                    return Err(ProjectionError::MalformedConfig);
                }
                opt = Some(value);
            } else if item.key == key_result {
                proof {
                    assert(iv[k as int].key == "result"@);
                }
                if res.is_some() {
                    proof {
                        let i = choose|i: int| 0 <= i < k && #[trigger] iv[i].key == "result"@;
                        assert(iv[i].key == iv[k as int].key);
                        assert(!wf_config(iv));
                    }
                    return Err(ProjectionError::MalformedConfig);
                }
                res = Some(value);
            } else {
                proof {
                    assert(!known_key(iv[k as int].key));
                    assert(!wf_config(iv));
                }
                return Err(ProjectionError::MalformedConfig);
            }
        }
        proof {
            if opt is Some {
                let w = choose|i: int| 0 <= i < iv.len() && #[trigger] iv[i].key == "option"@;
                assert(forall|i: int| 0 <= i < w ==> iv[i].key != "option"@);
                lemma_flag_of_found(iv, "option"@, w);
            } else {
                lemma_flag_of_absent(iv, "option"@);
            }
            if res is Some {
                let w = choose|i: int| 0 <= i < iv.len() && #[trigger] iv[i].key == "result"@;
                assert(forall|i: int| 0 <= i < w ==> iv[i].key != "result"@);
                lemma_flag_of_found(iv, "result"@, w);
            } else {
                lemma_flag_of_absent(iv, "result"@);
            }
        }
        let option_flag: bool = match opt {
            Some(b) => b,
            None => true,
        };
        let result_flag: bool = match res {
            Some(b) => b,
            None => true,
        };
        Ok(ProjectionArgs { option: option_flag, result: result_flag })
    }
}

} // verus!
