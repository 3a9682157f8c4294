use eiffel_macros_gen::{
    check_invariant, extract_signature, parse_attribute, parse_timing_keyword, synthesize,
    AttrList, AttributeSpec, ConfigToken, GuardedCall, MethodBody, MethodDecl, MethodDefinition,
    MethodSignature, Param, TimingPolicy, TransformError, TransformationResult,
};

fn ident(name: &str) -> ConfigToken {
    ConfigToken::Ident(name.to_string())
}

fn comma() -> ConfigToken {
    ConfigToken::Punct(',')
}

fn literal(text: &str) -> ConfigToken {
    ConfigToken::Literal(text.to_string())
}

fn receiver() -> Param {
    Param::Receiver { text: "&mut self".to_string() }
}

fn typed(name: &str, ty: &str) -> Param {
    Param::Typed { name: Some(name.to_string()), text: format!("{}: {}", name, ty) }
}

fn add_method() -> MethodDecl {
    MethodDecl {
        name: "add".to_string(),
        params: vec![receiver(), typed("x", "i32"), typed("y", "i32")],
        return_type: Some("i32".to_string()),
        body: "{ self.a += x + y; self.a }".to_string(),
    }
}

fn timing_of(options: Vec<ConfigToken>) -> Result<TimingPolicy, TransformError> {
    let mut tokens = vec![ident("inv")];
    for option in options {
        tokens.push(comma());
        tokens.push(option);
    }
    parse_attribute(&tokens).map(|attribute| attribute.timing)
}

#[test]
fn the_six_timing_words_are_recognised() {
    assert_eq!(parse_timing_keyword("\"before\""), Some(TimingPolicy::CheckBefore));
    assert_eq!(parse_timing_keyword("\"after\""), Some(TimingPolicy::CheckAfter));
    assert_eq!(
        parse_timing_keyword("\"before_and_after\""),
        Some(TimingPolicy::CheckBeforeAndAfter)
    );
    assert_eq!(parse_timing_keyword("\"require\""), Some(TimingPolicy::CheckBefore));
    assert_eq!(parse_timing_keyword("\"ensure\""), Some(TimingPolicy::CheckAfter));
    assert_eq!(
        parse_timing_keyword("\"require_and_ensure\""),
        Some(TimingPolicy::CheckBeforeAndAfter)
    );
}

#[test]
fn other_literals_are_no_timing_words() {
    assert_eq!(parse_timing_keyword("\"sometimes\""), None);
    assert_eq!(parse_timing_keyword("before"), None);
    assert_eq!(parse_timing_keyword("\"Before\""), None);
    assert_eq!(parse_timing_keyword("\"before \""), None);
    assert_eq!(parse_timing_keyword("r\"before\""), None);
    assert_eq!(parse_timing_keyword("1"), None);
    assert_eq!(parse_timing_keyword(""), None);
}

#[test]
fn a_lone_identifier_is_a_configuration() {
    let list = AttrList::parse(&vec![ident("my_invariant")]).unwrap();
    assert_eq!(
        list,
        AttrList { invariant_function_identifier: "my_invariant".to_string(), rest: vec![] }
    );
    assert_eq!(
        list.attribute_spec(),
        Ok(AttributeSpec {
            invariant_name: "my_invariant".to_string(),
            timing: TimingPolicy::CheckBeforeAndAfter,
        })
    );
}

#[test]
fn options_are_taken_one_per_comma() {
    let tokens = vec![
        ident("inv"),
        comma(),
        literal("\"after\""),
        comma(),
        comma(),
        comma(),
        ConfigToken::Group("(a, b)".to_string()),
    ];
    let list = AttrList::parse(&tokens).unwrap();
    assert_eq!(list.invariant_function_identifier, "inv");
    assert_eq!(
        list.rest,
        vec![literal("\"after\""), comma(), ConfigToken::Group("(a, b)".to_string())]
    );
}

#[test]
fn a_configuration_must_start_with_an_identifier() {
    assert_eq!(AttrList::parse(&vec![]), Err(TransformError::MalformedAttribute));
    assert_eq!(
        AttrList::parse(&vec![literal("\"before\"")]),
        Err(TransformError::MalformedAttribute)
    );
    assert_eq!(
        AttrList::parse(&vec![ConfigToken::Keyword("fn".to_string())]),
        Err(TransformError::MalformedAttribute)
    );
    assert_eq!(
        AttrList::parse(&vec![comma(), ident("inv")]),
        Err(TransformError::MalformedAttribute)
    );
}

#[test]
fn an_option_needs_its_comma() {
    assert_eq!(
        AttrList::parse(&vec![ident("inv"), literal("\"before\"")]),
        Err(TransformError::MalformedAttribute)
    );
    assert_eq!(
        AttrList::parse(&vec![ident("inv"), comma()]),
        Err(TransformError::MalformedAttribute)
    );
    assert_eq!(
        AttrList::parse(&vec![ident("inv"), comma(), literal("\"before\""), comma()]),
        Err(TransformError::MalformedAttribute)
    );
    assert_eq!(
        AttrList::parse(&vec![
            ident("inv"),
            comma(),
            ConfigToken::Punct('-'),
            literal("1"),
        ]),
        Err(TransformError::MalformedAttribute)
    );
    assert_eq!(
        AttrList::parse(&vec![ident("inv"), ConfigToken::Punct(';'), literal("\"before\"")]),
        Err(TransformError::MalformedAttribute)
    );
}

#[test]
fn timing_follows_the_word() {
    assert_eq!(timing_of(vec![]), Ok(TimingPolicy::CheckBeforeAndAfter));
    assert_eq!(timing_of(vec![literal("\"before\"")]), Ok(TimingPolicy::CheckBefore));
    assert_eq!(timing_of(vec![literal("\"after\"")]), Ok(TimingPolicy::CheckAfter));
    assert_eq!(
        timing_of(vec![literal("\"before_and_after\"")]),
        Ok(TimingPolicy::CheckBeforeAndAfter)
    );
    assert_eq!(timing_of(vec![literal("\"require\"")]), Ok(TimingPolicy::CheckBefore));
    assert_eq!(timing_of(vec![literal("\"ensure\"")]), Ok(TimingPolicy::CheckAfter));
    assert_eq!(
        timing_of(vec![literal("\"require_and_ensure\"")]),
        Ok(TimingPolicy::CheckBeforeAndAfter)
    );
}

#[test]
fn the_last_timing_word_counts() {
    assert_eq!(
        timing_of(vec![literal("\"before\""), literal("\"after\"")]),
        Ok(TimingPolicy::CheckAfter)
    );
    assert_eq!(
        timing_of(vec![literal("\"after\""), ident("later"), literal("\"require\""), comma()]),
        Ok(TimingPolicy::CheckBefore)
    );
}

#[test]
fn tokens_that_are_no_literals_are_passed_over() {
    assert_eq!(
        timing_of(vec![
            ident("before"),
            ConfigToken::Keyword("fn".to_string()),
            ConfigToken::Punct('+'),
            ConfigToken::Group("(\"after\")".to_string()),
        ]),
        Ok(TimingPolicy::CheckBeforeAndAfter)
    );
}

#[test]
fn an_unknown_timing_word_is_named() {
    let error = timing_of(vec![literal("\"sometimes\"")]).unwrap_err();
    assert_eq!(error, TransformError::InvalidTimingKeyword("\"sometimes\"".to_string()));
    assert_eq!(
        error.message(),
        "Invalid check time: \"sometimes\", expected one of: \"before\", \"after\", \"before_and_after\""
    );
}

#[test]
fn the_first_unknown_literal_is_the_one_reported() {
    assert_eq!(
        timing_of(vec![literal("\"before\""), literal("1"), literal("\"never\"")]),
        Err(TransformError::InvalidTimingKeyword("1".to_string()))
    );
    assert_eq!(
        timing_of(vec![literal("\"never\""), literal("\"after\"")]),
        Err(TransformError::InvalidTimingKeyword("\"never\"".to_string()))
    );
}

#[test]
fn each_error_has_its_message() {
    assert_eq!(
        TransformError::MalformedAttribute.message(),
        "expected an identifier, then options separated by commas"
    );
    assert_eq!(
        TransformError::MissingReceiver.message(),
        "The input function must have a self argument"
    );
    assert_eq!(
        TransformError::MalformedDeclaration("expected `fn`".to_string()).message(),
        "expected `fn`"
    );
    assert_eq!(
        TransformError::InvalidTimingKeyword("42".to_string()).message(),
        "Invalid check time: 42, expected one of: \"before\", \"after\", \"before_and_after\""
    );
}

#[test]
fn a_signature_keeps_the_parameters_and_collects_the_names() {
    let signature = extract_signature(&add_method()).unwrap();
    assert_eq!(
        signature,
        MethodSignature {
            name: "add".to_string(),
            has_receiver: true,
            params: vec![receiver(), typed("x", "i32"), typed("y", "i32")],
            arg_names: vec!["x".to_string(), "y".to_string()],
            return_type: Some("i32".to_string()),
        }
    );
}

#[test]
fn a_method_needs_a_receiver() {
    let mut decl = add_method();
    decl.params.remove(0);
    assert_eq!(extract_signature(&decl), Err(TransformError::MissingReceiver));
    decl.params.clear();
    assert_eq!(extract_signature(&decl), Err(TransformError::MissingReceiver));
    assert_eq!(
        check_invariant(&vec![ident("inv")], &decl),
        Err(TransformError::MissingReceiver)
    );
}

#[test]
fn a_receiver_counts_only_in_the_first_place() {
    let mut decl = add_method();
    decl.params = vec![typed("x", "i32"), receiver()];
    assert_eq!(extract_signature(&decl), Err(TransformError::MissingReceiver));
}

#[test]
fn a_pattern_that_is_no_plain_name_is_kept_but_not_forwarded() {
    let pair_param = Param::Typed { name: None, text: "(a, b): (i32, i32)".to_string() };
    let decl = MethodDecl {
        name: "f".to_string(),
        params: vec![receiver(), typed("x", "u8"), pair_param.clone(), typed("z", "u8")],
        return_type: None,
        body: "{}".to_string(),
    };
    let signature = extract_signature(&decl).unwrap();
    assert_eq!(signature.arg_names, vec!["x".to_string(), "z".to_string()]);
    assert_eq!(signature.params.len(), 4);
    assert_eq!(signature.params[2], pair_param);
}

#[test]
fn the_pair_keeps_the_declaration() {
    let decl = add_method();
    let tokens = vec![ident("holds"), comma(), literal("\"after\"")];
    let pair = check_invariant(&tokens, &decl).unwrap();
    assert_eq!(
        pair,
        TransformationResult {
            renamed_original: MethodDefinition {
                name: "add_no_invariant".to_string(),
                params: vec![receiver(), typed("x", "i32"), typed("y", "i32")],
                return_type: Some("i32".to_string()),
                body: MethodBody::Original("{ self.a += x + y; self.a }".to_string()),
            },
            wrapper: MethodDefinition {
                name: "add".to_string(),
                params: vec![receiver(), typed("x", "i32"), typed("y", "i32")],
                return_type: Some("i32".to_string()),
                body: MethodBody::Guarded(GuardedCall {
                    invariant: "holds".to_string(),
                    target: "add_no_invariant".to_string(),
                    arguments: vec!["x".to_string(), "y".to_string()],
                    timing: TimingPolicy::CheckAfter,
                    binds_result: true,
                }),
            },
        }
    );
}

#[test]
fn synthesize_builds_both_methods() {
    let attribute =
        AttributeSpec { invariant_name: "ok".to_string(), timing: TimingPolicy::CheckBefore };
    let signature = MethodSignature {
        name: "touch".to_string(),
        has_receiver: true,
        params: vec![Param::Receiver { text: "&self".to_string() }],
        arg_names: vec![],
        return_type: None,
    };
    let pair = synthesize(&attribute, &signature, "{ }");
    assert_eq!(pair.renamed_original.name, "touch_no_invariant");
    assert_eq!(pair.renamed_original.body, MethodBody::Original("{ }".to_string()));
    assert_eq!(pair.wrapper.name, "touch");
    assert_eq!(
        pair.wrapper.body,
        MethodBody::Guarded(GuardedCall {
            invariant: "ok".to_string(),
            target: "touch_no_invariant".to_string(),
            arguments: vec![],
            timing: TimingPolicy::CheckBefore,
            binds_result: false,
        })
    );
}

#[test]
fn transforming_twice_gives_the_same_pair() {
    let tokens = vec![ident("holds"), comma(), literal("\"before\"")];
    let first = check_invariant(&tokens, &add_method());
    let second = check_invariant(&tokens, &add_method());
    assert_eq!(first, second);
    assert_eq!(first.unwrap().render(), second.unwrap().render());
}

#[test]
fn errors_come_in_the_order_of_the_steps() {
    let mut decl = add_method();
    decl.params.clear();
    assert_eq!(
        check_invariant(&vec![literal("\"x\"")], &decl),
        Err(TransformError::MalformedAttribute)
    );
    assert_eq!(
        check_invariant(&vec![ident("inv"), comma(), literal("\"x\"")], &decl),
        Err(TransformError::InvalidTimingKeyword("\"x\"".to_string()))
    );
}

#[test]
fn a_method_with_a_result_is_written_out() {
    let pair =
        check_invariant(&vec![ident("holds")], &add_method()).unwrap();
    assert_eq!(
        pair.renamed_original.render(),
        "fn add_no_invariant(&mut self, x: i32, y: i32) -> i32 { { self.a += x + y; self.a } }"
    );
    assert_eq!(
        pair.wrapper.render(),
        "fn add(&mut self, x: i32, y: i32) -> i32 { \
         if !self.holds() { panic!(\"Invariant {} failed on entry\", stringify!(holds)); } \
         let result = self.add_no_invariant(x, y); \
         if !self.holds() { panic!(\"Invariant {} failed on exit\", stringify!(holds)); } \
         result }"
    );
    assert_eq!(
        pair.render(),
        format!("{}\n{}", pair.renamed_original.render(), pair.wrapper.render())
    );
}

#[test]
fn a_method_without_a_result_is_written_out() {
    let decl = MethodDecl {
        name: "reset".to_string(),
        params: vec![receiver()],
        return_type: None,
        body: "{ self.a = 1; }".to_string(),
    };
    let before =
        check_invariant(&vec![ident("holds"), comma(), literal("\"before\"")], &decl).unwrap();
    assert_eq!(
        before.wrapper.render(),
        "fn reset(&mut self) { \
         if !self.holds() { panic!(\"Invariant {} failed on entry\", stringify!(holds)); } \
         self.reset_no_invariant(); }"
    );
    let after =
        check_invariant(&vec![ident("holds"), comma(), literal("\"ensure\"")], &decl).unwrap();
    assert_eq!(
        after.wrapper.render(),
        "fn reset(&mut self) { \
         self.reset_no_invariant(); \
         if !self.holds() { panic!(\"Invariant {} failed on exit\", stringify!(holds)); } }"
    );
    assert_eq!(
        after.renamed_original.render(),
        "fn reset_no_invariant(&mut self) { { self.a = 1; } }"
    );
}

#[test]
fn both_methods_share_the_header_but_for_the_name() {
    let pair = check_invariant(&vec![ident("holds")], &add_method()).unwrap();
    assert_eq!(pair.wrapper.render_header(), "fn add(&mut self, x: i32, y: i32) -> i32");
    assert_eq!(
        pair.renamed_original.render_header(),
        "fn add_no_invariant(&mut self, x: i32, y: i32) -> i32"
    );
}
