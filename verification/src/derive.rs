//! Names that the test-registration macros generate: the tests of a context
//! type `Ctx` are collected in a slice named `TESTS_ON_` followed by the
//! upper-case name of the type, which both the test attribute and the context
//! attribute must agree on.
use vstd::prelude::*;

verus! {

/// The upper-case form of `s`, as Rust's `str::to_uppercase` gives it.
pub uninterp spec fn uppercase(s: Seq<char>) -> Seq<char>;

/// Calls `str::to_uppercase`: the result is the upper-case form of `s`,
/// which depends on `s` alone (Unicode case tables, no locale).
#[verifier::external_body]
fn to_uppercase(s: &str) -> (r: String)
    ensures
        r@ == uppercase(s@),
{
    s.to_uppercase()
}

/// The prefix of the names of the test slices.
pub open spec fn slice_prefix() -> Seq<char> {
    "TESTS_ON_"@
}

/// The slice name for a context whose upper-case type name is `upper`.
pub fn slice_name_of_upper(upper: &str) -> (r: String)
    ensures
        r@ == slice_prefix() + upper@,
{
    let prefix = String::from_str("TESTS_ON_");
    proof {
        reveal_strlit("TESTS_ON_");
    }
    prefix.concat(upper)
}

/// The name of the slice that holds the tests of the context type named
/// `ctx`.
pub fn tests_slice_name(ctx: &str) -> (r: String)
    ensures
        r@ == slice_prefix() + uppercase(ctx@),
{
    let upper = to_uppercase(ctx);
    slice_name_of_upper(upper.as_str())
}

/// Why a test-registration attribute refuses the item it is put on.
#[derive(Debug, Clone, Copy, PartialEq, Eq, Structural)]
pub enum AttrError {
    /// The test function is not `async`.
    NotAsync,
    /// The test function's first parameter does not name a context type.
    NoContext,
    /// The context impl is not for a named type.
    NoImplContext,
}

impl AttrError {
    pub open spec fn message_spec(&self) -> Seq<char> {
        match self {
            AttrError::NotAsync => "Non async test fn."@,
            AttrError::NoContext => ""@,
            AttrError::NoImplContext => "Can't determine impl ctx."@,
        }
    }

    /// The message that the attribute fails with.
    pub fn message(&self) -> (r: &'static str)
        ensures
            r@ == self.message_spec(),
    {
        match self {
            AttrError::NotAsync => {
                proof {
                    reveal_strlit("Non async test fn.");
                }
                "Non async test fn."
            },
            AttrError::NoContext => {
                proof {
                    reveal_strlit("");
                }
                ""
            },
            AttrError::NoImplContext => {
                proof {
                    reveal_strlit("Can't determine impl ctx.");
                }
                "Can't determine impl ctx."
            },
        }
    }
}

/// The slice that the test attribute registers a test function in, from
/// whether the function is `async` and the name of the type of its first
/// parameter (`None` when that parameter is missing or does not name a
/// type): a function that is not `async` is refused first, then one without
/// a context type.
pub fn test_slice_for(is_async: bool, ctx: Option<&str>) -> (r: Result<String, AttrError>)
    ensures
        !is_async ==> r == Err::<String, AttrError>(AttrError::NotAsync),
        is_async && ctx is None ==> r == Err::<String, AttrError>(AttrError::NoContext),
        is_async && ctx is Some ==> (r matches Ok(s) && s@ == slice_prefix() + uppercase(
            ctx->0@,
        )),
{
    if !is_async {
        return Err(AttrError::NotAsync);
    }
    match ctx {
        Some(c) => Ok(tests_slice_name(c)),
        None => Err(AttrError::NoContext),
    }
}

/// The slice that the context attribute declares for a context impl, from
/// the name of the type the impl is for (`None` when it is not a named
/// type).
pub fn ctx_slice_for(ctx: Option<&str>) -> (r: Result<String, AttrError>)
    ensures
        ctx is None ==> r == Err::<String, AttrError>(AttrError::NoImplContext),
        ctx is Some ==> (r matches Ok(s) && s@ == slice_prefix() + uppercase(ctx->0@)),
{
    match ctx {
        Some(c) => Ok(tests_slice_name(c)),
        None => Err(AttrError::NoImplContext),
    }
}

} // verus!
