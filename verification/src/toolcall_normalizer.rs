//! Normalisation of tool calls against the tool catalogue.

use vstd::prelude::*;

verus! {

/// A tool call. Its arguments, of type `A`, are carried along unread.
#[derive(Debug, PartialEq, Eq)]
pub struct ToolCallFull<A> {
    pub name: String,
    pub call_id: Option<String>,
    pub arguments: A,
    pub thought_signature: Option<String>,
}

/// What the tool catalogue says of a call.
#[derive(Debug, PartialEq, Eq)]
pub enum CatalogAnswer<A> {
    /// It has no tool of that name.
    Unlisted,
    /// It has the tool, and the call's arguments do not fit it.
    Rejected,
    /// It has the tool, and this is the call as the tool itself would write it. The identifier and
    /// the signature in it are not those of the call.
    Typed(ToolCallFull<A>),
}

/// The call that normalisation makes of `call`, given the catalogue's answer on it.
pub open spec fn normalized<A>(call: ToolCallFull<A>, answer: CatalogAnswer<A>) -> ToolCallFull<A> {
    match answer {
        CatalogAnswer::Typed(typed) => ToolCallFull {
            name: typed.name,
            call_id: call.call_id,
            arguments: typed.arguments,
            thought_signature: call.thought_signature,
        },
        _ => call,
    }
}

/// `answer` is what a catalogue says of `call` that looks tools up with `contains` and makes the
/// tool's own form of a call with `typed`.
pub open spec fn catalog_says<A, C, T>(
    contains: C,
    typed: T,
    call: ToolCallFull<A>,
    answer: CatalogAnswer<A>,
) -> bool where
    C: FnOnce(&ToolCallFull<A>) -> bool,
    T: FnOnce(&ToolCallFull<A>) -> Option<ToolCallFull<A>>,
 {
    match answer {
        CatalogAnswer::Unlisted => contains.ensures((&call,), false),
        CatalogAnswer::Rejected => contains.ensures((&call,), true) && typed.ensures(
            (&call,),
            None,
        ),
        CatalogAnswer::Typed(form) => contains.ensures((&call,), true) && typed.ensures(
            (&call,),
            Some(form),
        ),
    }
}

/// Settles a tool call, given the catalogue's answer on it: where the catalogue understood the
/// call, its form of the name and arguments, under the identifier and signature that the call came
/// with; otherwise the call unchanged.
pub fn settle_tool_call<A>(tool_call: ToolCallFull<A>, answer: CatalogAnswer<A>) -> (result:
    ToolCallFull<A>)
    ensures
        result == normalized(tool_call, answer),
        answer matches CatalogAnswer::Typed(form) ==> {
            &&& result.name == form.name
            &&& result.arguments == form.arguments
        },
        result.call_id == tool_call.call_id,
        result.thought_signature == tool_call.thought_signature,
        !(answer is Typed) ==> result == tool_call,
{
    match answer {
        CatalogAnswer::Typed(typed) => ToolCallFull {
            name: typed.name,
            call_id: tool_call.call_id,
            arguments: typed.arguments,
            thought_signature: tool_call.thought_signature,
        },
        CatalogAnswer::Unlisted => tool_call,
        CatalogAnswer::Rejected => tool_call,
    }
}

/// Normalises a tool call against a catalogue: `contains` looks the tool up, and `typed`, which is
/// asked only of a tool that is there, makes the tool's own form of the call, or nothing where the
/// arguments do not fit.
pub fn normalize_tool_call<A, C, T>(tool_call: ToolCallFull<A>, contains: C, typed: T) -> (result:
    ToolCallFull<A>) where
    C: FnOnce(&ToolCallFull<A>) -> bool,
    T: FnOnce(&ToolCallFull<A>) -> Option<ToolCallFull<A>>,

    requires
        contains.requires((&tool_call,)),
        contains.ensures((&tool_call,), true) ==> typed.requires((&tool_call,)),
    ensures
        exists|answer: CatalogAnswer<A>| #[trigger]
            catalog_says(contains, typed, tool_call, answer) && result == normalized(
                tool_call,
                answer,
            ),
        result.call_id == tool_call.call_id,
        result.thought_signature == tool_call.thought_signature,
        ({
            ||| contains.ensures((&tool_call,), false) && result == tool_call
            ||| {
                &&& contains.ensures((&tool_call,), true)
                &&& typed.ensures((&tool_call,), None)
                &&& result == tool_call
            }
            ||| {
                &&& contains.ensures((&tool_call,), true)
                &&& exists|form: ToolCallFull<A>|
                    {
                        &&& #[trigger] typed.ensures((&tool_call,), Some(form))
                        &&& result.name == form.name
                        &&& result.arguments == form.arguments
                    }
            }
        }),
{
    let answer: CatalogAnswer<A> = if !contains(&tool_call) {
        CatalogAnswer::Unlisted
    } else {
        match typed(&tool_call) {
            Some(form) => CatalogAnswer::Typed(form),
            None => CatalogAnswer::Rejected,
        }
    };
    assert(catalog_says(contains, typed, tool_call, answer));
    settle_tool_call(tool_call, answer)
}

/// A call keeps its identifier and its signature, whatever the catalogue says.
pub proof fn law_identity_is_kept<A>(call: ToolCallFull<A>, answer: CatalogAnswer<A>)
    ensures
        normalized(call, answer).call_id == call.call_id,
        normalized(call, answer).thought_signature == call.thought_signature,
{
}

/// A call that the catalogue understood takes on the name and the arguments of the tool's own form,
/// whatever identifier and signature the call has.
pub proof fn law_typed_form_is_taken<A>(call: ToolCallFull<A>, form: ToolCallFull<A>)
    ensures
        normalized(call, CatalogAnswer::Typed(form)).name == form.name,
        normalized(call, CatalogAnswer::Typed(form)).arguments == form.arguments,
{
}

/// What becomes of an understood call's name and arguments rests on the tool's own form alone: two
/// calls with one form come out with the same name and the same arguments.
pub proof fn law_form_alone_decides<A>(
    call: ToolCallFull<A>,
    other: ToolCallFull<A>,
    form: ToolCallFull<A>,
)
    ensures
        normalized(call, CatalogAnswer::Typed(form)).name == normalized(
            other,
            CatalogAnswer::Typed(form),
        ).name,
        normalized(call, CatalogAnswer::Typed(form)).arguments == normalized(
            other,
            CatalogAnswer::Typed(form),
        ).arguments,
{
}

/// The identifier and the signature in the tool's own form play no part.
pub proof fn law_form_lends_no_identity<A>(
    call: ToolCallFull<A>,
    form: ToolCallFull<A>,
    other: ToolCallFull<A>,
)
    requires
        form.name == other.name,
        form.arguments == other.arguments,
    ensures
        normalized(call, CatalogAnswer::Typed(form)) == normalized(
            call,
            CatalogAnswer::Typed(other),
        ),
{
}

/// What a catalogue may say of a call: that the tool is not there only where the look-up says so,
/// and anything else only where the look-up finds the tool and the tool's answer is that one.
pub proof fn law_catalog_says_what_was_asked<A, C, T>(
    contains: C,
    typed: T,
    call: ToolCallFull<A>,
    answer: CatalogAnswer<A>,
) where
    C: FnOnce(&ToolCallFull<A>) -> bool,
    T: FnOnce(&ToolCallFull<A>) -> Option<ToolCallFull<A>>,

    requires
        catalog_says(contains, typed, call, answer),
    ensures
        contains.ensures((&call,), !(answer is Unlisted)),
        answer is Rejected ==> typed.ensures((&call,), None),
        answer matches CatalogAnswer::Typed(form) ==> typed.ensures((&call,), Some(form)),
{
}

/// A call that the catalogue does not list, or cannot make sense of, comes out as it went in.
pub proof fn law_misunderstood_call_is_kept<A>(call: ToolCallFull<A>, answer: CatalogAnswer<A>)
    requires
        !(answer is Typed),
    ensures
        normalized(call, answer) == call,
{
}

/// Normalising a normalised call changes nothing, where the catalogue answers the same on it.
pub proof fn law_normalizing_twice_is_once<A>(call: ToolCallFull<A>, answer: CatalogAnswer<A>)
    ensures
        normalized(normalized(call, answer), answer) == normalized(call, answer),
{
}

} // verus!
