use crater_cli::error::capture_stacktrace;
use crater_cli::error::decode;
use crater_cli::error::decode_error;
use crater_cli::error::Error;
use crater_cli::error::Fault;
use crater_cli::error::FaultKind;
use crater_cli::error::StackFrame;
use crater_cli::error::StackTrace;
use crater_cli::error::Sym;
use rustc_serialize::json::DecoderError;
use rustc_serialize::json::EncoderError;
use rustc_serialize::json::Json;

fn sym(name: &str, lineno: u32) -> Sym {
    Sym { name: Some(name.to_string()), addr: Some(4096), filename: None, lineno: Some(lineno) }
}

#[test]
fn frame_without_symbols_is_kept_bare() {
    let f = StackFrame::resolved(77, Vec::new());
    assert_eq!(f, StackFrame { ip: 77, sym: None });
}

#[test]
fn frame_takes_its_only_symbol() {
    let f = StackFrame::resolved(1, vec![sym("main", 3)]);
    assert_eq!(f, StackFrame { ip: 1, sym: Some(sym("main", 3)) });
}

#[test]
fn frame_takes_the_last_symbol_reported() {
    let f = StackFrame::resolved(9, vec![sym("inner", 1), sym("middle", 2), sym("outer", 3)]);
    assert_eq!(f.ip, 9);
    assert_eq!(f.sym, Some(sym("outer", 3)));
}

#[test]
fn symbol_parts_may_all_be_missing() {
    let bare = Sym { name: None, addr: None, filename: None, lineno: None };
    let f = StackFrame::resolved(0, vec![bare.clone()]);
    assert_eq!(f.sym, Some(bare));
}

#[test]
fn trace_keeps_every_frame_in_order() {
    let trace = StackTrace::resolving(vec![3, 1, 2, 1]);
    let ips: Vec<usize> = trace.frames.iter().map(|f| f.ip).collect();
    assert_eq!(ips, vec![3, 1, 2, 1]);
    assert!(StackTrace::resolving(Vec::new()).frames.is_empty());
}

#[test]
fn trace_resolves_the_address_of_a_function() {
    let here = trace_resolves_the_address_of_a_function as usize + 1;
    let trace = StackTrace::resolving(vec![here]);
    assert_eq!(trace.frames.len(), 1);
    assert_eq!(trace.frames[0].ip, here);
    let sym = trace.frames[0].sym.as_ref().unwrap();
    assert!(sym.name.as_ref().unwrap().contains("trace_resolves_the_address_of_a_function"));
}

#[test]
fn trace_is_assembled_frame_by_frame() {
    let walked = vec![
        (10, vec![sym("inner", 1), sym("outer", 2)]),
        (20, Vec::new()),
        (30, vec![sym("main", 3)]),
    ];
    let trace = StackTrace::assembled(walked);
    assert_eq!(
        trace.frames,
        vec![
            StackFrame { ip: 10, sym: Some(sym("outer", 2)) },
            StackFrame { ip: 20, sym: None },
            StackFrame { ip: 30, sym: Some(sym("main", 3)) },
        ]
    );
    assert!(StackTrace::assembled(Vec::new()).frames.is_empty());
}

#[test]
fn walk_without_frames_leaves_one_bare_frame() {
    let trace = StackTrace::walked(Vec::new());
    assert_eq!(trace.frames, vec![StackFrame { ip: 0, sym: None }]);
}

#[test]
fn walk_with_frames_keeps_them() {
    let trace = StackTrace::walked(vec![7, 5, 9]);
    let ips: Vec<usize> = trace.frames.iter().map(|f| f.ip).collect();
    assert_eq!(ips, vec![7, 5, 9]);
}

#[test]
fn captured_trace_has_frames() {
    let trace = capture_stacktrace();
    assert!(!trace.frames.is_empty());
    assert!(trace.frames.iter().any(|f| f.ip != 0));
}

#[test]
fn captured_trace_resolves_some_frame() {
    let trace = capture_stacktrace();
    assert!(trace.frames.iter().any(|f| f.sym.is_some()));
}

#[test]
fn bad_arguments_describe_themselves() {
    let e = Error::OptParse;
    assert_eq!(e.description(), "bad arguments");
    assert_eq!(e.to_string(), "bad arguments");
    assert!(e.cause().is_none());
    assert!(e.trace().is_none());
}

#[test]
fn transport_error_describes_its_cause() {
    let e = Error::transport(FaultKind::Io, "file not found".to_string());
    assert_eq!(e.description(), "file not found");
    assert_eq!(e.to_string(), "file not found");
    assert_eq!(e.cause(), Some(&Fault { kind: FaultKind::Io, message: "file not found".to_string() }));
    assert!(!e.trace().unwrap().frames.is_empty());
}

#[test]
fn transport_error_keeps_the_kind_of_its_fault() {
    for kind in [FaultKind::Io, FaultKind::Http, FaultKind::Encode, FaultKind::Decode, FaultKind::Logger] {
        let e = Error::transport(kind, "m".to_string());
        assert_eq!(e.cause().unwrap().kind, kind);
    }
}

#[test]
fn remote_failure_describes_itself_by_its_standard_error() {
    let e = Error::remote_failure("boom".to_string());
    assert_eq!(e.description(), "boom");
    assert_eq!(e.to_string(), "boom");
    assert!(e.cause().is_none());
    assert!(!e.trace().unwrap().frames.is_empty());
    assert!(matches!(e, Error::RemoteProcessFailure(ref s, _) if s == "boom"));
}

#[test]
fn decoder_error_becomes_a_decode_fault() {
    let cause = Json::from_str("{\"a\": ").unwrap_err();
    let e = Error::from(DecoderError::from(cause));
    assert_eq!(e.description(), "decoder error");
    assert_eq!(e.cause().unwrap().kind, FaultKind::Decode);
    assert!(!e.trace().unwrap().frames.is_empty());
}

#[test]
fn encoder_error_becomes_an_encode_fault() {
    let e = Error::from(EncoderError::BadHashmapKey);
    assert_eq!(e.description(), "encoder error");
    assert_eq!(e.cause().unwrap().kind, FaultKind::Encode);
    assert!(!e.trace().unwrap().frames.is_empty());
}

#[test]
fn wrong_shape_is_a_decode_fault() {
    let e = decode_error();
    assert_eq!(e.description(), "decoder error");
    assert_eq!(e.cause().unwrap().kind, FaultKind::Decode);
}

#[test]
fn text_is_read_as_json() {
    let j = decode("{\"a\": [true, \"x\"]}").unwrap();
    assert_eq!(j.find("a").unwrap().as_array().unwrap().len(), 2);
    assert_eq!(decode(" \"only a string\" ").unwrap(), Json::String("only a string".to_string()));
}

#[test]
fn text_that_is_no_json_is_a_decode_fault() {
    for text in ["", "{", "{\"a\" 1}", "[1, 2", "nul", "{} {}"] {
        let e = decode(text).unwrap_err();
        assert_eq!(e.description(), "decoder error");
        assert_eq!(e.cause().unwrap().kind, FaultKind::Decode);
    }
}

#[test]
fn errors_can_be_shown_for_diagnosis() {
    let shown = format!("{:?}", Error::transport(FaultKind::Logger, "twice".to_string()));
    assert!(shown.contains("TransportError"));
    assert!(shown.contains("Logger"));
    assert!(shown.contains("twice"));
    assert_eq!(format!("{:?}", Error::OptParse), "OptParse");
}
