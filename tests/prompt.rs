use charon::{Input, InputType, Prompt, PromptCollection, PromptParser, PromptResponse};

fn fixture_prompts() -> Vec<Prompt> {
    vec![
        Prompt {
            template: "greeting".into(),
            question: "how do we greet each other in computers?".into(),
            input_type: InputType::Name,
        },
        Prompt {
            template: "shoesize".into(),
            question: "what is your shoe size?".into(),
            input_type: InputType::Integer,
        },
        Prompt {
            template: "file".into(),
            question: "Give me the name of your favorite file".into(),
            input_type: InputType::Path,
        },
    ]
}

fn text_response(key: &str, text: &str) -> PromptResponse {
    PromptResponse {
        template: key.into(),
        input: Input::String(text.into()),
    }
}

#[test]
fn prompt_responding() {
    let parser = PromptParser(PromptCollection(fixture_prompts()));
    assert!(parser.template("?greeting?".into(), &[]).is_err());
    assert!(parser
        .template(
            "?greeting?".into(),
            &[PromptResponse {
                template: "not-greeting".into(),
                input: Input::Integer(20)
            }]
        )
        .is_err());
    assert!(parser
        .template(
            "?greeting?".into(),
            &[text_response("greeting", "hello, world!")]
        )
        .is_ok());
    assert!(parser
        .template(
            "?greeting?".into(),
            &[
                text_response("greeting", "hello, world!"),
                text_response("not-greeting", "hello, world!"),
            ]
        )
        .is_ok());
    assert_eq!(
        parser
            .template(
                "?greeting?".into(),
                &[text_response("greeting", "hello, world!")]
            )
            .unwrap(),
        "hello, world!"
    );
    assert_eq!(
        parser
            .template(
                "?greeting? ?shoesize?".into(),
                &[
                    text_response("greeting", "hello, world!"),
                    PromptResponse {
                        template: "shoesize".into(),
                        input: Input::Integer(20),
                    }
                ]
            )
            .unwrap(),
        "hello, world! 20"
    );
    assert!(parser.template("?greeting".into(), &[]).is_ok());
    assert_eq!(parser.template("?greeting".into(), &[]).unwrap(), "?greeting");
    assert!(parser.template("?".into(), &[]).is_ok());
    assert_eq!(parser.template("?".into(), &[]).unwrap(), "?");
    assert!(parser.template("??".into(), &[]).is_ok());
    assert_eq!(parser.template("??".into(), &[]).unwrap(), "?");
    assert_eq!(
        parser.template("why so serious?".into(), &[]).unwrap(),
        "why so serious?"
    );
    assert_eq!(
        parser.template("why so serious??".into(), &[]).unwrap(),
        "why so serious?"
    );
}

#[test]
fn prompt_gathering() {
    let prompts = fixture_prompts();
    let parser = PromptParser(PromptCollection(fixture_prompts()));
    assert_eq!(
        *parser.prompts("?greeting?".into()).unwrap().iter().next().unwrap(),
        prompts[0]
    );
    assert_eq!(
        *parser
            .prompts("also a ?greeting? woo".into())
            .unwrap()
            .iter()
            .next()
            .unwrap(),
        prompts[0]
    );
    assert_eq!(
        *parser
            .prompts("here are three items: ?file? and ?shoesize? and ?greeting? woo".into())
            .unwrap(),
        vec![prompts[2].clone(), prompts[1].clone(), prompts[0].clone()]
    );
    assert_eq!(*parser.prompts("??".into()).unwrap(), vec![]);
    assert_eq!(*parser.prompts("?".into()).unwrap(), vec![]);
    assert_eq!(*parser.prompts("?test".into()).unwrap(), vec![]);
    assert_eq!(*parser.prompts("?file ?shoesize".into()).unwrap(), vec![]);
    assert_eq!(*parser.prompts("why so serious?".into()).unwrap(), vec![]);
}

#[test]
fn input_conversion() {
    assert_eq!("20", Input::Integer(20).to_string());
    assert_eq!("-20", Input::SignedInteger(-20).to_string());
    assert_eq!("hello, world!", Input::String("hello, world!".into()).to_string());
}

#[test]
fn input_conversion_edges() {
    assert_eq!("0", Input::Integer(0).to_string());
    assert_eq!("18446744073709551615", Input::Integer(u64::MAX).to_string());
    assert_eq!("-9223372036854775808", Input::SignedInteger(i64::MIN).to_string());
    assert_eq!("9223372036854775807", Input::SignedInteger(i64::MAX).to_string());
    assert_eq!("true", Input::Boolean(true).to_string());
    assert_eq!("false", Input::Boolean(false).to_string());
    assert_eq!("null", Input::Null.to_string());
}

#[test]
fn extraction_keeps_order_and_repeats() {
    let prompts = fixture_prompts();
    let parser = PromptParser(PromptCollection(fixture_prompts()));
    assert_eq!(
        parser
            .prompts("here: ?file? and ?shoesize? and ?greeting?".into())
            .unwrap(),
        vec![prompts[2].clone(), prompts[1].clone(), prompts[0].clone()]
    );
    assert_eq!(
        parser.prompts("?file? ?file? ?? ?greeting?".into()).unwrap(),
        vec![prompts[2].clone(), prompts[2].clone(), prompts[0].clone()]
    );
    assert_eq!(parser.prompts("?unknown?".into()).unwrap(), vec![]);
}

#[test]
fn escapes_and_open_placeholders() {
    let parser = PromptParser(PromptCollection(vec![]));
    assert_eq!(parser.template("??".into(), &[]).unwrap(), "?");
    assert_eq!(parser.template("?".into(), &[]).unwrap(), "?");
    assert_eq!(parser.template("?greeting".into(), &[]).unwrap(), "?greeting");
    assert_eq!(parser.template("a??b".into(), &[]).unwrap(), "a?b");
    assert_eq!(parser.template("".into(), &[]).unwrap(), "");
}

#[test]
fn missing_response_fails() {
    let parser = PromptParser(PromptCollection(vec![]));
    match parser.template("?missing?".into(), &[]) {
        Err(charon::Error::UnresolvedPlaceholder(key)) => assert_eq!(key, "missing"),
        other => panic!("unexpected outcome {:?}", other),
    }
    match parser.template(
        "?a? ?b? ?c?".into(),
        &[text_response("a", "1")],
    ) {
        Err(charon::Error::UnresolvedPlaceholder(key)) => assert_eq!(key, "b"),
        other => panic!("unexpected outcome {:?}", other),
    }
}

#[test]
fn first_matching_response_wins() {
    let parser = PromptParser(PromptCollection(vec![]));
    assert_eq!(
        parser
            .template(
                "x=?k?".into(),
                &[
                    text_response("k", "first"),
                    text_response("k", "second")
                ]
            )
            .unwrap(),
        "x=first"
    );
    assert_eq!(
        parser
            .template(
                "?k?".into(),
                &[
                    PromptResponse {
                        template: "k".into(),
                        input: Input::Boolean(true)
                    },
                ]
            )
            .unwrap(),
        "true"
    );
}

#[test]
fn collection_copies() {
    let parser = PromptParser(PromptCollection(fixture_prompts()));
    assert_eq!(parser.collection().to_vec(), fixture_prompts());
    let options = InputType::Select(vec![charon::SelectOption {
        name: "one".into(),
        value: Input::Integer(1),
    }]);
    assert_eq!(options.clone(), options);
}

#[test]
fn error_messages() {
    let parser = PromptParser(PromptCollection(vec![]));
    let e = parser.template("?missing?".into(), &[]).unwrap_err();
    assert_eq!(e.to_string(), "no response for prompt `missing`");
    let mismatch = charon::Error::TypeMismatch {
        field: "size".into(),
        text: "big".into(),
    };
    assert_eq!(mismatch.to_string(), "field `size` cannot hold `big`");
}
