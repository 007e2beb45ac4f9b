use vstd::prelude::*;

use crate::policy::SupervisorPolicy;
use crate::text::str_equal;

verus! {

/// Which decorator proposal the script compiler follows.
#[derive(Debug, Clone, Copy, PartialEq, Eq)]
pub enum DecoratorType {
    Tc39,
    Typescript,
    TypescriptWithMetadata,
}

/// What `str::to_lowercase` returns for a string of characters `s`.
pub uninterp spec fn lower_of(s: Seq<char>) -> Seq<char>;

/// Relies on str::to_lowercase: the result depends on the characters alone,
/// and an empty string stays empty.
#[verifier::external_body]
fn lowercase(s: &str) -> (r: String)
    ensures
        r@ == lower_of(s@),
        s@.len() == 0 ==> r@.len() == 0,
{
    s.to_lowercase()
}

impl DecoratorType {
    /// The decorator that a lower-case name denotes, if any.
    pub open spec fn named(name: Seq<char>) -> Option<DecoratorType> {
        if name == "tc39"@ {
            Some(DecoratorType::Tc39)
        } else if name == "typescript"@ {
            Some(DecoratorType::Typescript)
        } else if name == "typescript_with_metadata"@ {
            Some(DecoratorType::TypescriptWithMetadata)
        } else {
            None
        }
    }

    /// Looks up an already lower-cased decorator name.
    pub fn from_lowered(name: &str) -> (r: Option<DecoratorType>)
        ensures
            r == DecoratorType::named(name@),
    {
        if str_equal(name, "tc39") {
            Some(DecoratorType::Tc39)
        } else if str_equal(name, "typescript") {
            Some(DecoratorType::Typescript)
        } else if str_equal(name, "typescript_with_metadata") {
            Some(DecoratorType::TypescriptWithMetadata)
        } else {
            None
        }
    }
}

/// The decorator that the `decorator` option asks for, in any letter case.
pub fn get_decorator_option(value: Option<&str>) -> (r: Option<DecoratorType>)
    ensures
        r == match value {
            Some(v) => DecoratorType::named(lower_of(v@)),
            None => None,
        },
{
    match value {
        Some(v) => {
            let lowered = lowercase(v);
            DecoratorType::from_lowered(lowered.as_str())
        },
        None => None,
    }
}

/// How the debugger inspector is activated, on address `A`.
#[derive(Debug, Clone, Copy, PartialEq, Eq)]
pub enum InspectorOption<A> {
    Inspect(A),
    WithBreak(A),
    WithWait(A),
}

/// The inspector key was none of the three known ones.
#[derive(Debug, Clone, PartialEq, Eq)]
pub struct InvalidInspectorKey {
    pub key: String,
}

impl InvalidInspectorKey {
    pub fn message(&self) -> (r: String)
        ensures
            r@ == "invalid inspector key: "@ + self.key@,
    {
        let mut m = String::from_str("invalid inspector key: ");
        m.append(self.key.as_str());
        m
    }
}

pub open spec fn inspector_named<A>(key: Seq<char>, addr: A) -> Option<InspectorOption<A>> {
    if key == "inspect"@ {
        Some(InspectorOption::Inspect(addr))
    } else if key == "inspect-brk"@ {
        Some(InspectorOption::WithBreak(addr))
    } else if key == "inspect-wait"@ {
        Some(InspectorOption::WithWait(addr))
    } else {
        None
    }
}

/// The inspector mode that the option `key` selects on `addr`.
pub fn get_inspector_option<A>(key: &str, addr: A) -> (r: Result<InspectorOption<A>, InvalidInspectorKey>)
    ensures
        match inspector_named(key@, addr) {
            Some(opt) => r == Ok::<InspectorOption<A>, InvalidInspectorKey>(opt),
            None => r is Err && r->Err_0.key@ == key@,
        },
{
    if str_equal(key, "inspect") {
        Ok(InspectorOption::Inspect(addr))
    } else if str_equal(key, "inspect-brk") {
        Ok(InspectorOption::WithBreak(addr))
    } else if str_equal(key, "inspect-wait") {
        Ok(InspectorOption::WithWait(addr))
    } else {
        Err(InvalidInspectorKey { key: key.to_string() })
    }
}

/// The inspector may only be enabled together with the oneshot policy.
#[derive(Debug, Clone, Copy, PartialEq, Eq)]
pub struct InspectorNeedsOneshot;

/// Checks that an inspector is requested only under the oneshot policy.
pub fn check_inspector_policy(inspector_requested: bool, policy: Option<SupervisorPolicy>) -> (r: Result<
    (),
    InspectorNeedsOneshot,
>)
    ensures
        r is Err <==> (inspector_requested && policy != Some(SupervisorPolicy::Oneshot)),
{
    let oneshot = match policy {
        Some(p) => p.is_oneshot(),
        None => false,
    };
    if inspector_requested && !oneshot {
        Err(InspectorNeedsOneshot)
    } else {
        Ok(())
    }
}

/// The graceful-exit deadline in seconds; zero, that is none, when not given.
pub fn graceful_exit_deadline(configured: Option<u64>) -> (r: u64)
    ensures
        r == match configured {
            Some(d) => d,
            None => 0,
        },
{
    match configured {
        Some(d) => d,
        None => 0,
    }
}

} // verus!
