//! From an actor's method list to the shape of its runtime.
//!
//! An actor is written as ordinary methods on its state type. This module
//! decides what each method is to the runtime: a request kind that callers
//! can invoke through a handle, the selector source, the error
//! interceptor, or nothing. For a request kind it also decides whether the
//! caller waits for a reply and whether a failure of the method is shown
//! to the interceptor.

use vstd::prelude::*;

verus! {

/// How a method takes the actor's state.
#[derive(Clone, Copy, Debug, PartialEq, Eq, Structural)]
pub enum SelfArg {
    /// No `self` at all: an associated function.
    Absent,
    /// `self` by value.
    ByValue,
    /// `self` by reference.
    ByReference,
}

/// The markers that a method can carry.
#[derive(Clone, Copy, Debug, PartialEq, Eq, Structural)]
pub enum Marker {
    /// Leave this method out of the runtime.
    Skip,
    /// Make the caller wait until the method has run, though it returns
    /// nothing.
    Reply,
    /// This method is the selector source.
    Select,
    /// This method is the error interceptor.
    Error,
}

/// Which markers a method carries.
#[derive(Clone, Copy, Debug, PartialEq, Eq, Structural)]
pub struct Markers {
    pub skip: bool,
    pub reply: bool,
    pub select: bool,
    pub error: bool,
}

/// The generic arguments behind the last segment of a return type's path.
#[derive(Clone, Copy, Debug, PartialEq, Eq, Structural)]
pub enum Arguments {
    /// None are written.
    Absent,
    /// Round brackets, as in `Fn(A) -> B`.
    Parenthesized,
    /// Angle brackets with nothing in them.
    Empty,
    /// Angle brackets whose first argument is a type.
    Type,
    /// Angle brackets whose first argument is something else: a lifetime,
    /// a constant, a binding.
    NotType,
}

/// The written form of a method's return type.
#[derive(Clone, Debug)]
pub enum ReturnShape {
    /// No return type is written.
    Nothing,
    /// A type that is not a path: a tuple, a reference, a slice.
    NotPath,
    /// A path without segments.
    EmptyPath,
    /// A path; `name` is its last segment.
    Path { name: String, arguments: Arguments },
}

/// What a method hands back, as far as the runtime cares.
#[derive(Clone, Copy, Debug, PartialEq, Eq, Structural)]
pub enum Output {
    /// Nothing.
    Unit,
    /// A value that is passed on as it is.
    Plain,
    /// A result in the fallible convention, whose error the interceptor
    /// gets to see.
    Fallible,
}

/// One method of the actor's state type, as written.
#[derive(Clone, Debug)]
pub struct Method {
    pub receiver: SelfArg,
    pub markers: Markers,
    /// How many generic parameters the method itself declares.
    pub generics: usize,
    pub returns: ReturnShape,
    pub is_async: bool,
    /// How many arguments follow the receiver.
    pub arguments: usize,
}

/// What the runtime needs to know of one request kind.
#[derive(Clone, Copy, Debug, PartialEq, Eq, Structural)]
pub struct RequestKind {
    /// The caller waits for the method's result. Otherwise the call is
    /// fire-and-forget.
    pub reply: bool,
    /// The method's errors go past the interceptor.
    pub fallible: bool,
    /// The method has to be awaited.
    pub is_async: bool,
    /// How many arguments the event carries.
    pub arguments: usize,
}

/// What a method is to the runtime.
#[derive(Clone, Copy, Debug, PartialEq, Eq, Structural)]
pub enum Role {
    /// Not part of the runtime.
    Ignored,
    /// The selector source.
    Selector { is_async: bool },
    /// The error interceptor.
    Interceptor { is_async: bool },
    /// A request kind.
    Request(RequestKind),
}

/// Why a method list is refused.
#[derive(Clone, Copy, Debug, PartialEq, Eq, Structural)]
pub enum PlanError {
    /// A second method is marked as the selector source.
    MultipleSelectors,
    /// A second method is marked as the error interceptor.
    MultipleInterceptors,
    /// A request method declares generic parameters of its own.
    MethodGenerics,
    /// The fallible convention is named without angle brackets.
    MissingAngleBrackets,
    /// The fallible convention is named without a type as first argument.
    MissingTypeArgument,
    /// The return type is a path without segments.
    EmptyPath,
}

/// The name by which a return type follows the fallible convention.
pub open spec fn fallible_name() -> Seq<char> {
    "SactorResult"@
}

/// The marker that an attribute's name stands for, if any.
pub open spec fn marker_named(name: Seq<char>) -> Option<Marker> {
    if name == "skip"@ {
        Some(Marker::Skip)
    } else if name == "reply"@ {
        Some(Marker::Reply)
    } else if name == "select"@ {
        Some(Marker::Select)
    } else if name == "error"@ {
        Some(Marker::Error)
    } else {
        None
    }
}

/// The markers among `names[..upto]`.
pub open spec fn markers_among(names: Seq<String>, upto: int) -> Markers {
    Markers {
        skip: exists|i: int| 0 <= i < upto && #[trigger] marker_named(names[i]@) == Some(Marker::Skip),
        reply: exists|i: int|
            0 <= i < upto && #[trigger] marker_named(names[i]@) == Some(Marker::Reply),
        select: exists|i: int|
            0 <= i < upto && #[trigger] marker_named(names[i]@) == Some(Marker::Select),
        error: exists|i: int|
            0 <= i < upto && #[trigger] marker_named(names[i]@) == Some(Marker::Error),
    }
}

/// What a return type of this shape hands back.
pub open spec fn output_of(shape: ReturnShape) -> Result<Output, PlanError> {
    match shape {
        ReturnShape::Nothing => Ok(Output::Unit),
        ReturnShape::NotPath => Ok(Output::Plain),
        ReturnShape::EmptyPath => Err(PlanError::EmptyPath),
        ReturnShape::Path { name, arguments } => if name@ == fallible_name() {
            match arguments {
                Arguments::Type => Ok(Output::Fallible),
                Arguments::Absent | Arguments::Parenthesized => Err(
                    PlanError::MissingAngleBrackets,
                ),
                Arguments::Empty | Arguments::NotType => Err(PlanError::MissingTypeArgument),
            }
        } else {
            Ok(Output::Plain)
        },
    }
}

/// The request kind of a method with these markers and this output. The
/// caller waits for a reply when the method returns anything, or when it
/// is marked so.
pub open spec fn kind_of(method: Method, output: Output) -> RequestKind {
    RequestKind {
        reply: method.markers.reply || output != Output::Unit,
        fallible: output == Output::Fallible,
        is_async: method.is_async,
        arguments: method.arguments,
    }
}

/// What a method is to the runtime, looked at by itself. Only methods that
/// take the state by reference count. Among them, the selector mark goes
/// before the interceptor mark, and both before the skip mark.
pub open spec fn role_of(method: Method) -> Result<Role, PlanError> {
    if method.receiver != SelfArg::ByReference {
        Ok(Role::Ignored)
    } else if method.markers.select {
        Ok(Role::Selector { is_async: method.is_async })
    } else if method.markers.error {
        Ok(Role::Interceptor { is_async: method.is_async })
    } else if method.markers.skip {
        Ok(Role::Ignored)
    } else if method.generics > 0 {
        Err(PlanError::MethodGenerics)
    } else {
        match output_of(method.returns) {
            Ok(output) => Ok(Role::Request(kind_of(method, output))),
            Err(error) => Err(error),
        }
    }
}

impl Marker {
    /// Reads a marker from an attribute's name.
    pub fn parse(name: &String) -> (marker: Option<Marker>)
        ensures
            marker == marker_named(name@),
    {
        if *name == "skip".to_string() {
            Some(Marker::Skip)
        } else if *name == "reply".to_string() {
            Some(Marker::Reply)
        } else if *name == "select".to_string() {
            Some(Marker::Select)
        } else if *name == "error".to_string() {
            Some(Marker::Error)
        } else {
            None
        }
    }
}

impl Markers {
    /// No marker at all.
    pub fn none() -> (markers: Markers)
        ensures
            markers == (Markers { skip: false, reply: false, select: false, error: false }),
    {
        Markers { skip: false, reply: false, select: false, error: false }
    }

    /// Collects the markers among a method's attribute names. Names that
    /// are no marker are passed over.
    pub fn scan(names: &Vec<String>) -> (markers: Markers)
        ensures
            markers == markers_among(names@, names@.len() as int),
    {
        let mut markers = Markers::none();
        let mut i: usize = 0;
        while i < names.len()
            invariant
                0 <= i <= names.len(),
                markers == markers_among(names@, i as int),
            decreases names.len() - i,
        {
            let ghost before = markers;
            match Marker::parse(&names[i]) {
                Some(Marker::Skip) => {
                    markers.skip = true;
                },
                Some(Marker::Reply) => {
                    markers.reply = true;
                },
                Some(Marker::Select) => {
                    markers.select = true;
                },
                Some(Marker::Error) => {
                    markers.error = true;
                },
                None => {},
            }
            proof {
                let found = marker_named(names@[i as int]@);
                let after = markers_among(names@, i + 1);
                assert(after.skip == (before.skip || found == Some(Marker::Skip)));
                assert(after.reply == (before.reply || found == Some(Marker::Reply)));
                assert(after.select == (before.select || found == Some(Marker::Select)));
                assert(after.error == (before.error || found == Some(Marker::Error)));
            }
            i += 1;
        }
        markers
    }
}

impl ReturnShape {
    /// Reads what a return type of this shape hands back, or why it cannot
    /// be read.
    pub fn output(&self) -> (result: Result<Output, PlanError>)
        ensures
            result == output_of(*self),
    {
        match self {
            ReturnShape::Nothing => Ok(Output::Unit),
            ReturnShape::NotPath => Ok(Output::Plain),
            ReturnShape::EmptyPath => Err(PlanError::EmptyPath),
            ReturnShape::Path { name, arguments } => {
                if *name == "SactorResult".to_string() {
                    match arguments {
                        Arguments::Type => Ok(Output::Fallible),
                        Arguments::Absent => Err(PlanError::MissingAngleBrackets),
                        Arguments::Parenthesized => Err(PlanError::MissingAngleBrackets),
                        Arguments::Empty => Err(PlanError::MissingTypeArgument),
                        Arguments::NotType => Err(PlanError::MissingTypeArgument),
                    }
                } else {
                    Ok(Output::Plain)
                }
            },
        }
    }
}

impl Method {
    /// Decides what this method is to the runtime, looked at by itself.
    pub fn role(&self) -> (result: Result<Role, PlanError>)
        ensures
            result == role_of(*self),
    {
        match self.receiver {
            SelfArg::ByReference => {},
            _ => {
                return Ok(Role::Ignored);
            },
        }
        if self.markers.select {
            return Ok(Role::Selector { is_async: self.is_async });
        }
        if self.markers.error {
            return Ok(Role::Interceptor { is_async: self.is_async });
        }
        if self.markers.skip {
            return Ok(Role::Ignored);
        }
        if self.generics > 0 {
            return Err(PlanError::MethodGenerics);
        }
        match self.returns.output() {
            Err(error) => Err(error),
            Ok(output) => {
                let waits = match output {
                    Output::Unit => self.markers.reply,
                    _ => true,
                };
                let fallible = match output {
                    Output::Fallible => true,
                    _ => false,
                };
                Ok(
                    Role::Request(
                        RequestKind {
                            reply: waits,
                            fallible,
                            is_async: self.is_async,
                            arguments: self.arguments,
                        },
                    ),
                )
            },
        }
    }
}

/// The selector source or the error interceptor of an actor.
#[derive(Clone, Copy, Debug, PartialEq, Eq, Structural)]
pub struct Special {
    /// Its place in the method list.
    pub method: usize,
    /// Whether it has to be awaited.
    pub is_async: bool,
}

/// One request kind of an actor.
#[derive(Clone, Copy, Debug, PartialEq, Eq, Structural)]
pub struct Entry {
    /// The place of its method in the method list.
    pub method: usize,
    pub kind: RequestKind,
}

/// The shape of an actor's runtime.
#[derive(Clone, Debug)]
pub struct Plan {
    /// The selector source, if one is declared.
    pub selector: Option<Special>,
    /// The error interceptor, if one is declared.
    pub interceptor: Option<Special>,
    /// The request kinds, in the order of their methods.
    pub requests: Vec<Entry>,
}

/// A refused method list: the first method at fault, and why.
#[derive(Clone, Copy, Debug, PartialEq, Eq, Structural)]
pub struct Rejection {
    pub method: usize,
    pub error: PlanError,
}

/// Whether one of `methods[..upto]` is a selector source.
pub open spec fn selector_before(methods: Seq<Method>, upto: int) -> bool {
    exists|j: int| 0 <= j < upto && #[trigger] role_of(methods[j]) matches Ok(Role::Selector { .. })
}

/// Whether one of `methods[..upto]` is an error interceptor.
pub open spec fn interceptor_before(methods: Seq<Method>, upto: int) -> bool {
    exists|j: int|
        0 <= j < upto && #[trigger] role_of(methods[j]) matches Ok(Role::Interceptor { .. })
}

/// What is wrong with method `i` of the list, if anything: it cannot be
/// read by itself, or it declares a second selector or interceptor.
pub open spec fn fault_at(methods: Seq<Method>, i: int) -> Option<PlanError> {
    match role_of(methods[i]) {
        Err(error) => Some(error),
        Ok(Role::Selector { .. }) => if selector_before(methods, i) {
            Some(PlanError::MultipleSelectors)
        } else {
            None
        },
        Ok(Role::Interceptor { .. }) => if interceptor_before(methods, i) {
            Some(PlanError::MultipleInterceptors)
        } else {
            None
        },
        Ok(_) => None,
    }
}

/// Whether `special` is the selector among `methods[..upto]`: the method it
/// names is one, or there is none to name.
pub open spec fn is_selector_among(
    methods: Seq<Method>,
    upto: int,
    special: Option<Special>,
) -> bool {
    match special {
        Some(found) => 0 <= found.method < upto && role_of(methods[found.method as int]) == Ok::<
            Role,
            PlanError,
        >(Role::Selector { is_async: found.is_async }),
        None => !selector_before(methods, upto),
    }
}

/// Whether `special` is the interceptor among `methods[..upto]`.
pub open spec fn is_interceptor_among(
    methods: Seq<Method>,
    upto: int,
    special: Option<Special>,
) -> bool {
    match special {
        Some(found) => 0 <= found.method < upto && role_of(methods[found.method as int]) == Ok::<
            Role,
            PlanError,
        >(Role::Interceptor { is_async: found.is_async }),
        None => !interceptor_before(methods, upto),
    }
}

/// The request kinds among `methods[..upto]`, in order.
pub open spec fn entries_among(methods: Seq<Method>, upto: int) -> Seq<Entry>
    decreases upto,
{
    if upto <= 0 {
        Seq::empty()
    } else {
        let before = entries_among(methods, upto - 1);
        match role_of(methods[upto - 1]) {
            Ok(Role::Request(kind)) => before.push(Entry { method: (upto - 1) as usize, kind }),
            _ => before,
        }
    }
}

impl PlanError {
    /// The text of this error in specifications.
    pub open spec fn text(&self) -> Seq<char> {
        match self {
            PlanError::MultipleSelectors => "multiple select methods are not allowed"@,
            PlanError::MultipleInterceptors => "multiple error handler methods are not allowed"@,
            PlanError::MethodGenerics => "should not have method-level generics"@,
            PlanError::MissingAngleBrackets => "expected angle bracketed arguments"@,
            PlanError::MissingTypeArgument => "expected type argument"@,
            PlanError::EmptyPath => "expected a path with segments"@,
        }
    }

    /// The human-readable text of this error.
    pub fn message(&self) -> (text: String)
        ensures
            text@ == self.text(),
    {
        match self {
            PlanError::MultipleSelectors => "multiple select methods are not allowed".to_string(),
            PlanError::MultipleInterceptors => "multiple error handler methods are not allowed".to_string(),
            PlanError::MethodGenerics => "should not have method-level generics".to_string(),
            PlanError::MissingAngleBrackets => "expected angle bracketed arguments".to_string(),
            PlanError::MissingTypeArgument => "expected type argument".to_string(),
            PlanError::EmptyPath => "expected a path with segments".to_string(),
        }
    }
}

/// Plans the runtime of an actor from its method list.
///
/// The list is accepted when no method is at fault. The plan then names
/// the selector and the interceptor, where one is declared, and holds one
/// entry for each request method, in the order of the list. Otherwise the
/// first method at fault is reported.
pub fn plan(methods: &Vec<Method>) -> (result: Result<Plan, Rejection>)
    ensures
        match result {
            Ok(plan) => {
                &&& forall|i: int| 0 <= i < methods@.len() ==> fault_at(methods@, i) is None
                &&& is_selector_among(methods@, methods@.len() as int, plan.selector)
                &&& is_interceptor_among(methods@, methods@.len() as int, plan.interceptor)
                &&& plan.requests@ == entries_among(methods@, methods@.len() as int)
            },
            Err(rejection) => {
                &&& 0 <= rejection.method < methods@.len()
                &&& fault_at(methods@, rejection.method as int) == Some(rejection.error)
                &&& forall|j: int| 0 <= j < rejection.method ==> fault_at(methods@, j) is None
            },
        },
{
    let mut selector: Option<Special> = None;
    let mut interceptor: Option<Special> = None;
    let mut requests: Vec<Entry> = Vec::new();
    let mut i: usize = 0;
    while i < methods.len()
        invariant
            0 <= i <= methods@.len(),
            forall|j: int| 0 <= j < i ==> fault_at(methods@, j) is None,
            is_selector_among(methods@, i as int, selector),
            is_interceptor_among(methods@, i as int, interceptor),
            requests@ == entries_among(methods@, i as int),
        decreases methods@.len() - i,
    {
        let ghost at = i as int;
        match methods[i].role() {
            Err(error) => {
                return Err(Rejection { method: i, error });
            },
            Ok(Role::Selector { is_async }) => {
                if selector.is_some() {
                    assert(role_of(methods@[selector.unwrap().method as int]) is Ok);
                    assert(selector_before(methods@, at));
                    return Err(Rejection { method: i, error: PlanError::MultipleSelectors });
                }
                selector = Some(Special { method: i, is_async });
                proof {
                    assert(fault_at(methods@, at) is None);
                    assert forall|j: int| 0 <= j < at + 1 && #[trigger] role_of(
                        methods@[j],
                    ) matches Ok(Role::Interceptor { .. }) implies j < at by {}
                }
            },
            Ok(Role::Interceptor { is_async }) => {
                if interceptor.is_some() {
                    assert(role_of(methods@[interceptor.unwrap().method as int]) is Ok);
                    assert(interceptor_before(methods@, at));
                    return Err(Rejection { method: i, error: PlanError::MultipleInterceptors });
                }
                interceptor = Some(Special { method: i, is_async });
                proof {
                    assert(fault_at(methods@, at) is None);
                    assert forall|j: int| 0 <= j < at + 1 && #[trigger] role_of(
                        methods@[j],
                    ) matches Ok(Role::Selector { .. }) implies j < at by {}
                }
            },
            Ok(Role::Request(kind)) => {
                requests.push(Entry { method: i, kind });
                proof {
                    assert forall|j: int| 0 <= j < at + 1 && #[trigger] role_of(
                        methods@[j],
                    ) matches Ok(Role::Selector { .. }) implies j < at by {}
                    assert forall|j: int| 0 <= j < at + 1 && #[trigger] role_of(
                        methods@[j],
                    ) matches Ok(Role::Interceptor { .. }) implies j < at by {}
                }
            },
            Ok(Role::Ignored) => {
                proof {
                    assert forall|j: int| 0 <= j < at + 1 && #[trigger] role_of(
                        methods@[j],
                    ) matches Ok(Role::Selector { .. }) implies j < at by {}
                    assert forall|j: int| 0 <= j < at + 1 && #[trigger] role_of(
                        methods@[j],
                    ) matches Ok(Role::Interceptor { .. }) implies j < at by {}
                }
            },
        }
        i += 1;
    }
    Ok(Plan { selector, interceptor, requests })
}

/// Each request kind has exactly one entry: every entry of a plan stands
/// for a request method and carries its kind, the entries follow the order
/// of the methods, so that none stands for the same method twice, and no
/// request method is left out.
pub proof fn law_one_entry_per_request(methods: Seq<Method>, upto: int)
    requires
        0 <= upto <= methods.len() <= usize::MAX,
    ensures
        forall|k: int|
            0 <= k < entries_among(methods, upto).len() ==> {
                let entry = #[trigger] entries_among(methods, upto)[k];
                &&& 0 <= entry.method < upto
                &&& role_of(methods[entry.method as int]) == Ok::<Role, PlanError>(
                    Role::Request(entry.kind),
                )
            },
        forall|k: int, l: int|
            0 <= k < l < entries_among(methods, upto).len() ==> (#[trigger] entries_among(
                methods,
                upto,
            )[k]).method < (#[trigger] entries_among(methods, upto)[l]).method,
        forall|i: int|
            0 <= i < upto && (#[trigger] role_of(methods[i]) matches Ok(Role::Request(_)))
                ==> exists|k: int|
                0 <= k < entries_among(methods, upto).len() && (#[trigger] entries_among(
                    methods,
                    upto,
                )[k]).method == i,
    decreases upto,
{
    if upto > 0 {
        law_one_entry_per_request(methods, upto - 1);
        let before = entries_among(methods, upto - 1);
        let all = entries_among(methods, upto);
        match role_of(methods[upto - 1]) {
            Ok(Role::Request(kind)) => {
                let last = Entry { method: (upto - 1) as usize, kind };
                assert(all == before.push(last));
                assert(all[before.len() as int] == last);
                assert forall|i: int|
                    0 <= i < upto && (#[trigger] role_of(methods[i]) matches Ok(
                        Role::Request(_),
                    )) implies exists|k: int|
                    0 <= k < all.len() && (#[trigger] all[k]).method == i by {
                    if i < upto - 1 {
                        let k = choose|k: int|
                            0 <= k < before.len() && (#[trigger] before[k]).method == i;
                        assert(all[k] == before[k]);
                    } else {
                        assert(all[before.len() as int].method == i);
                    }
                }
            },
            _ => {
                assert(all == before);
            },
        }
    }
}

} // verus!
