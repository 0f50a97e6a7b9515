use sactor::plan::{
    plan, Arguments, Entry, Marker, Markers, Method, Output, PlanError, Rejection, RequestKind,
    ReturnShape, Role, SelfArg, Special,
};

fn unmarked() -> Markers {
    Markers::none()
}

fn method(returns: ReturnShape) -> Method {
    Method {
        receiver: SelfArg::ByReference,
        markers: unmarked(),
        generics: 0,
        returns,
        is_async: false,
        arguments: 0,
    }
}

fn marked(select: bool, error: bool, skip: bool, reply: bool) -> Method {
    Method {
        receiver: SelfArg::ByReference,
        markers: Markers { skip, reply, select, error },
        generics: 0,
        returns: ReturnShape::Nothing,
        is_async: false,
        arguments: 0,
    }
}

fn path(name: &str, arguments: Arguments) -> ReturnShape {
    ReturnShape::Path { name: name.to_string(), arguments }
}

#[test]
fn marker_names_are_read() {
    assert_eq!(Marker::parse(&"skip".to_string()), Some(Marker::Skip));
    assert_eq!(Marker::parse(&"reply".to_string()), Some(Marker::Reply));
    assert_eq!(Marker::parse(&"select".to_string()), Some(Marker::Select));
    assert_eq!(Marker::parse(&"error".to_string()), Some(Marker::Error));
    assert_eq!(Marker::parse(&"inline".to_string()), None);
    assert_eq!(Marker::parse(&"Skip".to_string()), None);
    assert_eq!(Marker::parse(&"".to_string()), None);
}

#[test]
fn scan_collects_markers_and_passes_over_the_rest() {
    let names: Vec<String> =
        vec!["doc".to_string(), "reply".to_string(), "inline".to_string(), "skip".to_string()];
    assert_eq!(
        Markers::scan(&names),
        Markers { skip: true, reply: true, select: false, error: false }
    );
    assert_eq!(Markers::scan(&Vec::new()), Markers::none());
    let both: Vec<String> = vec!["error".to_string(), "select".to_string(), "select".to_string()];
    assert_eq!(
        Markers::scan(&both),
        Markers { skip: false, reply: false, select: true, error: true }
    );
}

#[test]
fn return_shapes_are_read() {
    assert_eq!(ReturnShape::Nothing.output(), Ok(Output::Unit));
    assert_eq!(ReturnShape::NotPath.output(), Ok(Output::Plain));
    assert_eq!(path("String", Arguments::Absent).output(), Ok(Output::Plain));
    assert_eq!(path("Vec", Arguments::Type).output(), Ok(Output::Plain));
    assert_eq!(path("SactorResult", Arguments::Type).output(), Ok(Output::Fallible));
    assert_eq!(path("Result", Arguments::Type).output(), Ok(Output::Plain));
}

#[test]
fn malformed_fallible_returns_are_refused() {
    assert_eq!(ReturnShape::EmptyPath.output(), Err(PlanError::EmptyPath));
    assert_eq!(
        path("SactorResult", Arguments::Absent).output(),
        Err(PlanError::MissingAngleBrackets)
    );
    assert_eq!(
        path("SactorResult", Arguments::Parenthesized).output(),
        Err(PlanError::MissingAngleBrackets)
    );
    assert_eq!(
        path("SactorResult", Arguments::Empty).output(),
        Err(PlanError::MissingTypeArgument)
    );
    assert_eq!(
        path("SactorResult", Arguments::NotType).output(),
        Err(PlanError::MissingTypeArgument)
    );
}

#[test]
fn only_methods_by_reference_count() {
    let mut by_value = method(ReturnShape::NotPath);
    by_value.receiver = SelfArg::ByValue;
    assert_eq!(by_value.role(), Ok(Role::Ignored));
    let mut associated = method(ReturnShape::NotPath);
    associated.receiver = SelfArg::Absent;
    associated.generics = 2;
    assert_eq!(associated.role(), Ok(Role::Ignored));
}

#[test]
fn method_without_return_is_fire_and_forget() {
    let mut m = method(ReturnShape::Nothing);
    m.arguments = 3;
    m.is_async = true;
    assert_eq!(
        m.role(),
        Ok(Role::Request(RequestKind { reply: false, fallible: false, is_async: true, arguments: 3 }))
    );
}

#[test]
fn reply_marker_makes_the_caller_wait() {
    let m = marked(false, false, false, true);
    assert_eq!(
        m.role(),
        Ok(Role::Request(RequestKind { reply: true, fallible: false, is_async: false, arguments: 0 }))
    );
}

#[test]
fn method_with_return_expects_a_reply() {
    let plain = method(path("String", Arguments::Absent));
    assert_eq!(
        plain.role(),
        Ok(Role::Request(RequestKind { reply: true, fallible: false, is_async: false, arguments: 0 }))
    );
    let fallible = method(path("SactorResult", Arguments::Type));
    assert_eq!(
        fallible.role(),
        Ok(Role::Request(RequestKind { reply: true, fallible: true, is_async: false, arguments: 0 }))
    );
}

#[test]
fn marks_take_precedence_in_order() {
    let mut all = marked(true, true, true, true);
    all.is_async = true;
    assert_eq!(all.role(), Ok(Role::Selector { is_async: true }));
    assert_eq!(marked(false, true, true, false).role(), Ok(Role::Interceptor { is_async: false }));
    assert_eq!(marked(false, false, true, true).role(), Ok(Role::Ignored));
    // A marked method may have generics and any return type.
    let mut skipped = marked(false, false, true, false);
    skipped.generics = 1;
    skipped.returns = ReturnShape::EmptyPath;
    assert_eq!(skipped.role(), Ok(Role::Ignored));
}

#[test]
fn request_method_with_generics_is_refused() {
    let mut m = method(ReturnShape::Nothing);
    m.generics = 1;
    assert_eq!(m.role(), Err(PlanError::MethodGenerics));
    // Generics are looked at before the return type.
    m.returns = ReturnShape::EmptyPath;
    assert_eq!(m.role(), Err(PlanError::MethodGenerics));
}

#[test]
fn plan_of_an_empty_list_is_empty() {
    let planned = plan(&Vec::new()).unwrap();
    assert_eq!(planned.selector, None);
    assert_eq!(planned.interceptor, None);
    assert!(planned.requests.is_empty());
}

#[test]
fn plan_lists_requests_in_method_order() {
    let mut tick = method(ReturnShape::Nothing);
    tick.is_async = true;
    let mut new = method(path("Self", Arguments::Absent));
    new.receiver = SelfArg::Absent;
    let mut selector = marked(true, false, false, false);
    selector.is_async = true;
    let methods = vec![
        new,
        method(path("SactorResult", Arguments::Type)),
        selector,
        marked(false, false, true, false),
        tick,
        marked(false, true, false, false),
    ];
    let planned = plan(&methods).unwrap();
    assert_eq!(planned.selector, Some(Special { method: 2, is_async: true }));
    assert_eq!(planned.interceptor, Some(Special { method: 5, is_async: false }));
    assert_eq!(
        planned.requests,
        vec![
            Entry {
                method: 1,
                kind: RequestKind { reply: true, fallible: true, is_async: false, arguments: 0 },
            },
            Entry {
                method: 4,
                kind: RequestKind { reply: false, fallible: false, is_async: true, arguments: 0 },
            },
        ]
    );
}

#[test]
fn second_selector_is_refused() {
    let methods = vec![
        marked(true, false, false, false),
        method(ReturnShape::Nothing),
        marked(true, false, false, false),
    ];
    assert_eq!(
        plan(&methods).unwrap_err(),
        Rejection { method: 2, error: PlanError::MultipleSelectors }
    );
}

#[test]
fn second_interceptor_is_refused() {
    let methods = vec![marked(false, true, false, false), marked(false, true, false, false)];
    assert_eq!(
        plan(&methods).unwrap_err(),
        Rejection { method: 1, error: PlanError::MultipleInterceptors }
    );
}

#[test]
fn first_fault_is_reported() {
    let mut generic = method(ReturnShape::Nothing);
    generic.generics = 1;
    let methods = vec![
        method(ReturnShape::Nothing),
        method(path("SactorResult", Arguments::Absent)),
        generic,
    ];
    assert_eq!(
        plan(&methods).unwrap_err(),
        Rejection { method: 1, error: PlanError::MissingAngleBrackets }
    );
}

#[test]
fn selector_on_a_method_by_value_does_not_count() {
    let mut by_value = marked(true, false, false, false);
    by_value.receiver = SelfArg::ByValue;
    let methods = vec![by_value, marked(true, false, false, false)];
    let planned = plan(&methods).unwrap();
    assert_eq!(planned.selector, Some(Special { method: 1, is_async: false }));
}

#[test]
fn plan_error_messages() {
    assert_eq!(PlanError::MultipleSelectors.message(), "multiple select methods are not allowed");
    assert_eq!(
        PlanError::MultipleInterceptors.message(),
        "multiple error handler methods are not allowed"
    );
    assert_eq!(PlanError::MethodGenerics.message(), "should not have method-level generics");
    assert_eq!(PlanError::MissingAngleBrackets.message(), "expected angle bracketed arguments");
    assert_eq!(PlanError::MissingTypeArgument.message(), "expected type argument");
    assert_eq!(PlanError::EmptyPath.message(), "expected a path with segments");
}
