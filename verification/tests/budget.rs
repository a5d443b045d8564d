use shurbai::budget::generation_limit;
use shurbai::errors::ServeError;

#[test]
fn limit_is_prompt_plus_request_when_it_fits() {
    assert_eq!(generation_limit(10, 32, 2048), Ok(42));
}

#[test]
fn limit_is_capped_at_the_window() {
    assert_eq!(generation_limit(2000, 512, 2048), Ok(2048));
    assert_eq!(generation_limit(2016, 32, 2048), Ok(2048));
}

#[test]
fn prompt_as_large_as_the_window_generates_nothing() {
    assert_eq!(generation_limit(2048, 32, 2048), Ok(2048));
}

#[test]
fn prompt_larger_than_the_window_is_refused() {
    assert_eq!(generation_limit(2049, 32, 2048), Err(ServeError::PromptTooLarge));
    assert_eq!(generation_limit(1, 0, 0), Err(ServeError::PromptTooLarge));
}

#[test]
fn limit_stays_between_prompt_and_window() {
    for prompt in [0usize, 1, 7, 100, 4095, 4096] {
        for requested in [0u32, 1, 32, 512, 4096, u32::MAX] {
            let limit = generation_limit(prompt, requested, 4096).unwrap();
            assert!(prompt as u32 <= limit && limit <= 4096);
        }
    }
}

#[test]
fn empty_request_keeps_the_prompt() {
    assert_eq!(generation_limit(5, 0, 10), Ok(5));
}
