# Russian inflection after Zaliznyak, verified

A library for the declension of Russian nouns, pronouns and adjectives by the system of
Zaliznyak's grammatical dictionary, written in Verus: every public function carries a
contract, and Verus proves each function against its own contract and those of what it calls.

Modules (under `src/`):

- `letter`: the 33 lowercase Russian letters, their characters and UTF-8 bytes, and their
  classes (vowels, sibilants, hissing consonants).
- `categories`: case, gender, number, animacy, tense and person; their abbreviations; the
  parsing of declension parameters.
- `stress`: stress schemas of every kind of word, their conversions and abbreviations, their
  text and its parsing.
- `declension`: stem types, declension flags, the declensions of the three kinds of word,
  their text and its parsing, and the identification of a stem's type.
- `endings`: the endings tables.
- `word`: words with a stem and a stress position; their display and its parsing.
- `inflection`: the buffer in which a form is built, with a model of each operation.
- `noun`, `pronoun`, `adjective`: declension information and inflection.
- `vowel_alternation`: the vowel alternations of nouns, prepared once and applied to a form.
- `parser`, `text`: a character cursor, and the string operations the rest builds on.

The public `law_*` proof functions state what holds across functions: that parsing a
formatted value gives it back (stresses, flags, declensions, stem types, noun declension
information, words), that conversions between kinds round-trip, and what the stress schemas
a and b mean.

Tests are under `tests/`.
