use llm_agent::llm::LLMSettings;
use llm_agent::llm::LLMToolChoice;
use llm_agent::OpenAIModel;
use llm_agent::PricingInfo;

#[test]
fn pricing_table_gpt4o() {
    let p = OpenAIModel::GPT4O.pricing();
    assert_eq!(p.input_tokens, 2_500_000);
    assert_eq!(p.output_tokens, 10_000_000);
    assert_eq!(p.cached_input_tokens, Some(1_250_000));
}

#[test]
fn pricing_table_other_models() {
    let p = OpenAIModel::GPT4OMINI.pricing();
    assert_eq!(p.input_tokens, 150_000);
    assert_eq!(p.output_tokens, 600_000);
    assert_eq!(p.cached_input_tokens, Some(75_000));
    let p = OpenAIModel::O1.pricing();
    assert_eq!(p.input_tokens, 15_000_000);
    assert_eq!(p.output_tokens, 60_000_000);
    assert_eq!(p.cached_input_tokens, Some(7_500_000));
    let p = OpenAIModel::GPT35TURBO.pricing();
    assert_eq!(p.input_tokens, 3_000_000);
    assert_eq!(p.output_tokens, 6_000_000);
    assert_eq!(p.cached_input_tokens, None);
    let p = OpenAIModel::GPT4.pricing();
    assert_eq!(p.input_tokens, 30_000_000);
    assert_eq!(p.output_tokens, 60_000_000);
    let p = OpenAIModel::GPT4TURBO.pricing();
    assert_eq!(p.input_tokens, 10_000_000);
    assert_eq!(p.output_tokens, 30_000_000);
}

#[test]
fn pricing_of_custom_model_is_its_own() {
    let own = PricingInfo {
        input_tokens: 42,
        output_tokens: 43,
        cached_input_tokens: None,
    };
    let m = OpenAIModel::Other("m".to_string(), own);
    assert_eq!(m.pricing(), own);
}

#[test]
fn batch_pricing_table() {
    let p = OpenAIModel::GPT4O.batch_pricing().unwrap();
    assert_eq!(p.input_tokens, 1_250_000);
    assert_eq!(p.output_tokens, 5_000_000);
    assert_eq!(p.cached_input_tokens, None);
    let p = OpenAIModel::GPT4OMINI.batch_pricing().unwrap();
    assert_eq!(p.input_tokens, 75_000);
    assert_eq!(p.output_tokens, 300_000);
    assert!(OpenAIModel::O1.batch_pricing().is_none());
    assert!(OpenAIModel::GPT4.batch_pricing().is_none());
}

#[test]
fn from_str_known_aliases() {
    assert_eq!(OpenAIModel::from_str("gpt-4o").unwrap(), OpenAIModel::GPT4O);
    assert_eq!(OpenAIModel::from_str("gpt4o").unwrap(), OpenAIModel::GPT4O);
    assert_eq!(OpenAIModel::from_str("gpt").unwrap(), OpenAIModel::GPT4);
    assert_eq!(OpenAIModel::from_str("gpt-4").unwrap(), OpenAIModel::GPT4);
    assert_eq!(
        OpenAIModel::from_str("gpt4turbo").unwrap(),
        OpenAIModel::GPT4TURBO
    );
    assert_eq!(
        OpenAIModel::from_str("gpt-4o-mini").unwrap(),
        OpenAIModel::GPT4OMINI
    );
    assert_eq!(OpenAIModel::from_str("o1").unwrap(), OpenAIModel::O1);
    assert_eq!(OpenAIModel::from_str("o1-mini").unwrap(), OpenAIModel::O1MINI);
    assert_eq!(
        OpenAIModel::from_str("gpt-3.5-turbo").unwrap(),
        OpenAIModel::GPT35TURBO
    );
    assert_eq!(
        OpenAIModel::from_str("gpt3.5turbo").unwrap(),
        OpenAIModel::GPT35TURBO
    );
}

#[test]
fn from_str_plain_name_gets_zero_pricing() {
    match OpenAIModel::from_str("my-model").unwrap() {
        OpenAIModel::Other(name, p) => {
            assert_eq!(name, "my-model");
            assert_eq!(p.input_tokens, 0);
            assert_eq!(p.output_tokens, 0);
            assert_eq!(p.cached_input_tokens, None);
        }
        other => panic!("expected Other, got {:?}", other),
    }
}

#[test]
fn from_str_name_with_prices() {
    match OpenAIModel::from_str("my-model,2.5,10").unwrap() {
        OpenAIModel::Other(name, p) => {
            assert_eq!(name, "my-model");
            assert_eq!(p.input_tokens, 2_500_000);
            assert_eq!(p.output_tokens, 10_000_000);
            assert_eq!(p.cached_input_tokens, None);
        }
        other => panic!("expected Other, got {:?}", other),
    }
}

#[test]
fn from_str_name_with_cached_price() {
    match OpenAIModel::from_str("m,0.15,0.6,0.075").unwrap() {
        OpenAIModel::Other(name, p) => {
            assert_eq!(name, "m");
            assert_eq!(p.input_tokens, 150_000);
            assert_eq!(p.output_tokens, 600_000);
            assert_eq!(p.cached_input_tokens, Some(75_000));
        }
        other => panic!("expected Other, got {:?}", other),
    }
}

#[test]
fn from_str_bad_prices_are_rejected() {
    assert!(OpenAIModel::from_str("m,abc").is_err());
    assert!(OpenAIModel::from_str("m,1,2,3,4").is_err());
    assert!(OpenAIModel::from_str("m,1.2.3,4").is_err());
}

#[test]
fn from_str_non_ascii_name_with_prices() {
    match OpenAIModel::from_str("modèle,2.5,10").unwrap() {
        OpenAIModel::Other(name, p) => {
            assert_eq!(name, "modèle");
            assert_eq!(p.input_tokens, 2_500_000);
            assert_eq!(p.output_tokens, 10_000_000);
        }
        other => panic!("expected Other, got {:?}", other),
    }
}

#[test]
fn pricing_info_from_str() {
    let p = PricingInfo::from_str("2.5,10").unwrap();
    assert_eq!(p.input_tokens, 2_500_000);
    assert_eq!(p.output_tokens, 10_000_000);
    assert_eq!(p.cached_input_tokens, None);
    let p = PricingInfo::from_str("3,12.00,1.5").unwrap();
    assert_eq!(p.input_tokens, 3_000_000);
    assert_eq!(p.output_tokens, 12_000_000);
    assert_eq!(p.cached_input_tokens, Some(1_500_000));
    assert!(PricingInfo::from_str("1").is_err());
    assert!(PricingInfo::from_str("").is_err());
    assert!(PricingInfo::from_str("a,b").is_err());
}

#[test]
fn pricing_fraction_only_and_trailing_dot() {
    let p = PricingInfo::from_str(".5,2.").unwrap();
    assert_eq!(p.input_tokens, 500_000);
    assert_eq!(p.output_tokens, 2_000_000);
}

#[test]
fn model_names_render() {
    assert_eq!(OpenAIModel::GPT4O.name(), "gpt-4o");
    assert_eq!(OpenAIModel::O1MINI.name(), "o1-mini");
    assert_eq!(OpenAIModel::GPT35TURBO.name(), "gpt-3.5-turbo");
    let own = PricingInfo {
        input_tokens: 0,
        output_tokens: 0,
        cached_input_tokens: None,
    };
    assert_eq!(OpenAIModel::Other("x".to_string(), own).name(), "x");
}

#[test]
fn tool_choice_words() {
    assert!(matches!(LLMToolChoice::from_str("auto"), LLMToolChoice::Auto));
    assert!(matches!(
        LLMToolChoice::from_str("required"),
        LLMToolChoice::Required
    ));
    assert!(matches!(
        LLMToolChoice::from_str("none"),
        LLMToolChoice::NoTools
    ));
    match LLMToolChoice::from_str("my_tool") {
        LLMToolChoice::Named(n) => assert_eq!(n, "my_tool"),
        _ => panic!("expected Named"),
    }
}

#[test]
fn standard_settings_values() {
    let s = LLMSettings::standard();
    assert_eq!(s.llm_temperature_centi, 80);
    assert_eq!(s.llm_presence_penalty_centi, 0);
    assert_eq!(s.llm_prompt_timeout, 120);
    assert_eq!(s.llm_retry, 5);
    assert_eq!(s.llm_max_completion_tokens, 16384);
    assert!(matches!(s.llm_tool_choice, LLMToolChoice::Auto));
}
