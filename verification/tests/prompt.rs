use snippet::prompt::{
    ChatRole, PromptBuildError, PromptBuilder, PromptContext, PromptIntent, PromptRequest,
    QuickAction,
};

fn request(intent: PromptIntent) -> PromptRequest {
    PromptRequest {
        selected_text: Some("  The scheduler may preempt a process.  ".into()),
        has_image: false,
        intent,
        context: None,
    }
}

#[test]
fn builds_an_explanation_prompt() {
    let messages = PromptBuilder::build(request(PromptIntent::QuickAction {
        action: QuickAction::Explain,
    }))
    .unwrap();

    assert_eq!(messages.len(), 2);
    assert_eq!(messages[0].role, ChatRole::System);
    assert!(messages[0].content.contains("untrusted reference material"));
    assert!(messages[1]
        .content
        .contains("Explain the selected text clearly."));
    assert!(messages[1]
        .content
        .contains("<selected_text>\nThe scheduler may preempt a process.\n</selected_text>"));
}

#[test]
fn builds_each_quick_action() {
    for (action, expected_instruction) in [
        (QuickAction::Explain, "Explain the selected text clearly."),
        (
            QuickAction::Summarize,
            "Summarize the selected text concisely",
        ),
        (
            QuickAction::Refine,
            "Rewrite the selected text for clarity and polish",
        ),
    ] {
        let messages =
            PromptBuilder::build(request(PromptIntent::QuickAction { action })).unwrap();
        assert!(messages[1].content.contains(expected_instruction));
    }
}

#[test]
fn uses_the_custom_instruction_instead_of_a_quick_action_template() {
    let messages = PromptBuilder::build(request(PromptIntent::Custom {
        instruction: " Explain this for a new operating-systems student. ".into(),
    }))
    .unwrap();

    assert!(messages[1]
        .content
        .contains("Task:\nExplain this for a new operating-systems student."));
    assert!(!messages[1].content.contains("Define unfamiliar terms"));
}

#[test]
fn includes_available_context() {
    let mut prompt_request = request(PromptIntent::QuickAction {
        action: QuickAction::Explain,
    });
    prompt_request.context = Some(PromptContext {
        application_name: Some("Visual Studio Code".into()),
        window_title: Some("scheduler.rs".into()),
    });

    let messages = PromptBuilder::build(prompt_request).unwrap();

    assert!(messages[1]
        .content
        .contains("Application: Visual Studio Code"));
    assert!(messages[1].content.contains("Window title: scheduler.rs"));
}

#[test]
fn rejects_missing_selection_and_empty_custom_instructions() {
    let empty_selection = PromptBuilder::build(PromptRequest {
        selected_text: Some(" \n ".into()),
        has_image: false,
        intent: PromptIntent::QuickAction {
            action: QuickAction::Explain,
        },
        context: None,
    });
    assert_eq!(empty_selection, Err(PromptBuildError::MissingReference));

    let empty_instruction = PromptBuilder::build(request(PromptIntent::Custom {
        instruction: "  ".into(),
    }));
    assert_eq!(
        empty_instruction,
        Err(PromptBuildError::EmptyCustomInstruction)
    );
}

#[test]
fn builds_a_prompt_for_an_attached_screenshot() {
    let messages = PromptBuilder::build(PromptRequest {
        selected_text: None,
        has_image: true,
        intent: PromptIntent::QuickAction {
            action: QuickAction::Explain,
        },
        context: None,
    })
    .unwrap();

    assert!(messages[1].content.contains("A screenshot is attached"));
    assert!(messages[0].content.contains("attached image"));
    assert!(messages[1]
        .content
        .contains("Explain the attached screenshot clearly."));
}

#[test]
fn builds_the_exact_user_message() {
    let messages = PromptBuilder::build(PromptRequest {
        selected_text: Some("\tabc\u{3000}".into()),
        has_image: true,
        intent: PromptIntent::QuickAction {
            action: QuickAction::Summarize,
        },
        context: Some(PromptContext {
            application_name: Some("  ".into()),
            window_title: Some(" notes.txt ".into()),
        }),
    })
    .unwrap();

    assert_eq!(
        messages[1].content,
        "Task:\nSummarize the selected text concisely, preserving its main points and conclusions.\
         \n\nAdditional context (may be incomplete):\nWindow title: notes.txt\
         \n\nReference text:\n<selected_text>\nabc\n</selected_text>\
         \n\nA screenshot is attached as reference material."
    );
    assert_eq!(messages[1].role, ChatRole::User);
    assert!(messages[0].images.is_none() && messages[1].images.is_none());
}

#[test]
fn omits_an_empty_context() {
    let mut prompt_request = request(PromptIntent::QuickAction {
        action: QuickAction::Refine,
    });
    prompt_request.context = Some(PromptContext::default());
    let messages = PromptBuilder::build(prompt_request).unwrap();
    assert!(!messages[1].content.contains("Additional context"));
}

#[test]
fn refuses_a_blank_custom_instruction_even_with_an_image() {
    let result = PromptBuilder::build(PromptRequest {
        selected_text: None,
        has_image: true,
        intent: PromptIntent::Custom {
            instruction: "\n".into(),
        },
        context: None,
    });
    assert_eq!(result, Err(PromptBuildError::EmptyCustomInstruction));
}

#[test]
fn reports_prompt_errors_to_the_user() {
    assert_eq!(
        PromptBuildError::MissingReference.user_message(),
        "Select text or capture a screen before asking Snippet."
    );
    assert_eq!(
        PromptBuildError::EmptyCustomInstruction.user_message(),
        "Enter an instruction or choose a quick action."
    );
}
