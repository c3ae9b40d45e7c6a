use vstd::prelude::*;

verus! {

/// A pronunciation of a word: its transcription and a recording.
#[derive(Debug)]
pub struct Phonetic {
    pub text: Option<String>,
    pub audio: Option<String>,
}

/// One definition of a word, with an example of use.
#[derive(Debug)]
pub struct Definition {
    pub definition: String,
    pub example: Option<String>,
}

/// The definitions of a word for one part of speech.
#[derive(Debug)]
pub struct Meaning {
    pub part_of_speech: String,
    pub definitions: Vec<Definition>,
}

/// A dictionary entry: a word, its pronunciations and its meanings.
#[derive(Debug)]
pub struct WordEntry {
    pub word: String,
    pub phonetics: Option<Vec<Phonetic>>,
    pub meanings: Vec<Meaning>,
}

} // verus!
