//! Inflection of Russian nouns, pronouns and adjectives, following Zaliznyak's grammatical
//! dictionary.

pub mod letter;
pub mod text;
pub mod parser;
pub mod categories;
pub mod stress;
pub mod declension;
pub mod endings;
pub mod word;
pub mod inflection;
pub mod noun;
pub mod adjective;
pub mod pronoun;
pub mod vowel_alternation;
