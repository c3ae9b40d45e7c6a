use dictionary_api::dictionary::{search_query, search_reply};
use dictionary_api::error::AppError;

#[test]
fn query_embeds_the_word() {
    let q = search_query(&Some("apple".to_string()));
    assert_eq!(
        q,
        "SELECT  word,audio_save, source_url, phonetic, meanings \n                FROM `dictionary-project-471510.dictionary.dictionary` where word  = 'apple' LIMIT 1000"
    );
}

#[test]
fn query_without_a_word_searches_the_empty_word() {
    let q = search_query(&None);
    assert!(q.ends_with("where word  = '' LIMIT 1000"));
    assert!(q.starts_with("SELECT  word,audio_save, source_url, phonetic, meanings \n"));
}

#[test]
fn failed_lookup_is_an_internal_error() {
    assert_eq!(search_reply::<u32>(None), Err(AppError::Internal));
}

#[test]
fn no_rows_is_not_found() {
    assert_eq!(search_reply::<u32>(Some(vec![])), Err(AppError::NotFound));
}

#[test]
fn rows_are_the_answer() {
    assert_eq!(search_reply(Some(vec![7u32, 8])), Ok(vec![7u32, 8]));
}
