use java_bridge::call::{check_arity, ARITY_REFUSED};
use java_bridge::error::BridgeError;
use java_bridge::facade::{
    respond, respond_with, ERROR_PREFIX, HANDLER_ERROR_PREFIX, STATUS_INTERNAL_ERROR, STATUS_OK,
};
use java_bridge::failure::{classify, FailureKind, Stage};
use java_bridge::marshal::{contains_terminator, TERMINATOR, TERMINATOR_REFUSED};
use java_bridge::signature::{
    change_status_signature, create_incident_signature, exception_text_signature, CallSignature,
    SERVICE_CLASS, STRING_DESCRIPTOR, THROWABLE_CLASS,
};

const ALL_KINDS: [FailureKind; 8] = [
    FailureKind::JavaException,
    FailureKind::MethodNotFound,
    FailureKind::InvalidArgList,
    FailureKind::ParseFailed,
    FailureKind::WrongJValueType,
    FailureKind::NullPtr,
    FailureKind::JniCall,
    FailureKind::Other,
];

fn detail(error: &BridgeError) -> String {
    error.detail().to_string()
}

#[test]
fn create_incident_signature_is_the_fixed_one() {
    let signature = create_incident_signature();
    assert_eq!(signature.service, "com/incident/jni/IncidentServiceFacade");
    assert_eq!(signature.operation, "createIncident");
    assert_eq!(signature.arity, 3);
    assert_eq!(
        signature.descriptor(),
        "(Ljava/lang/String;Ljava/lang/String;Ljava/lang/String;)Ljava/lang/String;"
    );
}

#[test]
fn change_status_signature_is_the_fixed_one() {
    let signature = change_status_signature();
    assert_eq!(signature.service, SERVICE_CLASS);
    assert_eq!(signature.operation, "changeStatus");
    assert_eq!(signature.arity, 4);
    assert_eq!(
        signature.descriptor(),
        "(Ljava/lang/String;Ljava/lang/String;Ljava/lang/String;Ljava/lang/String;)Ljava/lang/String;"
    );
}

#[test]
fn descriptor_of_no_arguments() {
    let signature = CallSignature::new("a/B", "run", 0);
    assert_eq!(signature.descriptor(), "()Ljava/lang/String;");
    assert_eq!(STRING_DESCRIPTOR, "Ljava/lang/String;");
}

#[test]
fn descriptor_is_what_the_binding_parses() {
    for arity in 0..6 {
        let text = CallSignature::new("a/B", "run", arity).descriptor();
        let parsed = jni::signature::TypeSignature::from_str(&text).unwrap();
        assert_eq!(parsed.args.len(), arity);
    }
}

#[test]
fn terminator_is_found_anywhere() {
    assert_eq!(TERMINATOR, '\0');
    assert!(!contains_terminator(""));
    assert!(!contains_terminator("Title"));
    assert!(!contains_terminator("caf\u{e9} \u{1f600}"));
    assert!(contains_terminator("\0"));
    assert!(contains_terminator("\0Title"));
    assert!(contains_terminator("Ti\0tle"));
    assert!(contains_terminator("Title\0"));
}

#[test]
fn failure_to_attach_is_an_attachment_error() {
    for kind in ALL_KINDS {
        let error = classify(Stage::Attach, kind, String::from("no"));
        assert!(matches!(error, BridgeError::AttachmentError(_)));
        assert_eq!(detail(&error), "no");
    }
}

#[test]
fn unresolved_service_is_not_found() {
    for kind in ALL_KINDS {
        let error = classify(Stage::Resolve, kind, String::from("missing"));
        assert!(matches!(error, BridgeError::ServiceNotFoundError(_)));
        assert_eq!(detail(&error), "missing");
    }
}

#[test]
fn failure_to_encode_or_decode_is_a_marshal_error() {
    for kind in ALL_KINDS {
        assert!(matches!(
            classify(Stage::Encode, kind, String::new()),
            BridgeError::MarshalError(_)
        ));
        assert!(matches!(
            classify(Stage::Decode, kind, String::new()),
            BridgeError::MarshalError(_)
        ));
    }
}

#[test]
fn failure_of_the_invocation_depends_on_its_kind() {
    let at = |kind| classify(Stage::Invoke, kind, String::from("x"));
    assert!(matches!(at(FailureKind::JavaException), BridgeError::RemoteInvocationError(_)));
    assert!(matches!(at(FailureKind::NullPtr), BridgeError::RemoteInvocationError(_)));
    assert!(matches!(at(FailureKind::JniCall), BridgeError::RemoteInvocationError(_)));
    assert!(matches!(at(FailureKind::Other), BridgeError::RemoteInvocationError(_)));
    assert!(matches!(at(FailureKind::MethodNotFound), BridgeError::ServiceNotFoundError(_)));
    assert!(matches!(at(FailureKind::InvalidArgList), BridgeError::MarshalError(_)));
    assert!(matches!(at(FailureKind::ParseFailed), BridgeError::MarshalError(_)));
    assert!(matches!(at(FailureKind::WrongJValueType), BridgeError::MarshalError(_)));
}

#[test]
fn messages_name_the_kind_and_the_detail() {
    assert_eq!(BridgeError::Uninitialized.message(), "runtime not initialized");
    assert_eq!(
        BridgeError::AttachmentError(String::from("a")).message(),
        "attachment failed: a"
    );
    assert_eq!(
        BridgeError::ServiceNotFoundError(String::from("b")).message(),
        "service not found: b"
    );
    assert_eq!(
        BridgeError::MarshalError(String::from(TERMINATOR_REFUSED)).message(),
        "marshalling failed: string holds the terminator character"
    );
    assert_eq!(
        BridgeError::MarshalError(String::from(ARITY_REFUSED)).message(),
        "marshalling failed: arguments do not match the signature"
    );
    assert_eq!(
        BridgeError::RemoteInvocationError(String::from("boom")).message(),
        "remote invocation failed: boom"
    );
    assert_eq!(BridgeError::Uninitialized.label(), "runtime not initialized");
    assert_eq!(BridgeError::Uninitialized.detail(), "");
}

#[test]
fn success_is_answered_with_200_and_the_result() {
    let response = respond(Ok(String::from("Open")));
    assert_eq!(response.status, 200);
    assert_eq!(response.status, STATUS_OK);
    assert_eq!(response.body, "Open");
}

#[test]
fn unreachable_service_is_never_answered_as_success() {
    let error = classify(
        Stage::Resolve,
        FailureKind::JavaException,
        String::from("java.lang.NoClassDefFoundError: com/incident/jni/IncidentServiceFacade"),
    );
    assert!(matches!(error, BridgeError::ServiceNotFoundError(_)));
    let response = respond(Err(error));
    assert_eq!(response.status, 500);
    assert_eq!(response.status, STATUS_INTERNAL_ERROR);
    assert_eq!(
        response.body,
        "JNI Error: service not found: java.lang.NoClassDefFoundError: com/incident/jni/IncidentServiceFacade"
    );
    assert!(response.body.starts_with(ERROR_PREFIX));
}

#[test]
fn every_error_is_answered_with_500() {
    let errors = vec![
        BridgeError::Uninitialized,
        BridgeError::AttachmentError(String::from("a")),
        BridgeError::ServiceNotFoundError(String::from("b")),
        BridgeError::MarshalError(String::from("c")),
        BridgeError::RemoteInvocationError(String::from("d")),
    ];
    for error in errors {
        let message = error.message();
        let response = respond(Err(error));
        assert_eq!(response.status, 500);
        assert_eq!(response.body, format!("JNI Error: {}", message));
    }
}

#[test]
fn arity_is_checked_exactly() {
    let signature = change_status_signature();
    assert!(check_arity(&signature, &vec!["1", "Open", "User", "Comment"]).is_ok());
    for args in [vec![], vec!["1"], vec!["1", "Open", "User"], vec!["1", "2", "3", "4", "5"]] {
        match check_arity(&signature, &args) {
            Err(BridgeError::MarshalError(detail)) => assert_eq!(detail, ARITY_REFUSED),
            other => panic!("unexpected {:?}", other),
        }
    }
    assert!(check_arity(&CallSignature::new("a/B", "run", 0), &vec![]).is_ok());
}

#[test]
fn handlers_open_an_error_with_their_own_prefix() {
    assert_eq!(ERROR_PREFIX, "JNI Error: ");
    assert_eq!(HANDLER_ERROR_PREFIX, "JNI error: ");
    let response = respond_with(
        HANDLER_ERROR_PREFIX,
        Err(BridgeError::RemoteInvocationError(String::from("boom"))),
    );
    assert_eq!(response.status, 500);
    assert_eq!(response.body, "JNI error: remote invocation failed: boom");
    let response = respond_with(HANDLER_ERROR_PREFIX, Ok(String::from("Open")));
    assert_eq!(response.status, 200);
    assert_eq!(response.body, "Open");
}

#[test]
fn exception_text_is_asked_for_by_to_string() {
    let signature = exception_text_signature();
    assert_eq!(signature.service, THROWABLE_CLASS);
    assert_eq!(signature.service, "java/lang/Throwable");
    assert_eq!(signature.operation, "toString");
    assert_eq!(signature.arity, 0);
    assert_eq!(signature.descriptor(), "()Ljava/lang/String;");
}

#[test]
fn absent_and_raising_services_give_two_kinds() {
    let absent = classify(Stage::Resolve, FailureKind::JavaException, String::from("x"));
    let raised = classify(Stage::Invoke, FailureKind::JavaException, String::from("x"));
    assert!(matches!(absent, BridgeError::ServiceNotFoundError(_)));
    assert!(matches!(raised, BridgeError::RemoteInvocationError(_)));
}
