use vstd::prelude::*;

use crate::clock::is_uuid_v4_text;
use crate::storage::CaptchaStorage;

verus! {

/// The style of the rendered puzzle.
#[derive(Debug, Clone, Copy, PartialEq, Eq, Structural)]
pub enum CaptchaName {
    /// Plain text, without any distortion
    Normal,
    /// Slightly twisted text
    SlightlyTwisted,
    /// Very twisted text
    VeryTwisted,
}

/// How hard the rendered text is to read.
#[derive(Debug, Clone, Copy, PartialEq, Eq, Structural)]
pub enum CaptchaDifficulty {
    /// Easy to read text
    Easy,
    /// Medium difficulty text
    Medium,
    /// Hard to read text
    Hard,
}

/// The error of the simple generator.
#[derive(Debug, Clone, Copy, PartialEq, Eq, Structural)]
pub enum SimpleGeneratorError {
    /// The puzzle could not be encoded as a PNG image.
    FaildEncodedToPng,
}

impl SimpleGeneratorError {
    /// A description of the error.
    pub fn message(&self) -> &'static str {
        "Faild to encode the captcha to png image"
    }
}

/// A producer of puzzles: an answer and the image that shows it.
pub trait CaptchaGenerator {
    /// The error of the generator.
    type Error;

    /// What a new puzzle may be: its answer and its image, or an error. By
    /// default any result; a generator states its own.
    open spec fn produced(&self, r: Result<(String, Vec<u8>), Self::Error>) -> bool {
        true
    }

    /// Creates a new puzzle: its answer and its image encoded as PNG.
    fn new_captcha(&self) -> (r: Result<(String, Vec<u8>), Self::Error>)
        ensures
            self.produced(r),
    ;
}

/// Relies on `captcha::by_name(..).as_tuple()`: a random puzzle of the named
/// style (`Normal` is the crate's `Lucy`, `SlightlyTwisted` its `Amelia`,
/// `VeryTwisted` its `Mila`) and difficulty, as its text and its PNG image,
/// or `None` where the PNG encoding failed. The text holds at most six
/// characters: four to six are drawn, and one without a glyph is left out.
#[verifier::external_body]
fn render_captcha(name: CaptchaName, difficulty: CaptchaDifficulty) -> (r: Option<(String, Vec<u8>)>)
    ensures
        r matches Some((a, _)) ==> a@.len() <= 6,
{
    let name = match name {
        CaptchaName::Normal => captcha::CaptchaName::Lucy,
        CaptchaName::SlightlyTwisted => captcha::CaptchaName::Amelia,
        CaptchaName::VeryTwisted => captcha::CaptchaName::Mila,
    };
    let difficulty = match difficulty {
        CaptchaDifficulty::Easy => captcha::Difficulty::Easy,
        CaptchaDifficulty::Medium => captcha::Difficulty::Medium,
        CaptchaDifficulty::Hard => captcha::Difficulty::Hard,
    };
    captcha::by_name(difficulty, name).as_tuple()
}

/// A generator of 220x110 puzzles from the `captcha` crate's samples.
#[derive(Debug, Clone, Copy)]
pub struct SimpleGenerator {
    /// The style of the puzzles.
    pub name: CaptchaName,
    /// The difficulty of the puzzles.
    pub difficulty: CaptchaDifficulty,
}

impl SimpleGenerator {
    /// Creates a generator of puzzles of the given style and difficulty.
    pub fn new(name: CaptchaName, difficulty: CaptchaDifficulty) -> (r: Self)
        ensures
            r.name == name,
            r.difficulty == difficulty,
    {
        SimpleGenerator { name, difficulty }
    }
}

/// The simple generator's result, given what the rendering gave: the
/// puzzle, or the PNG error where there is none.
pub fn puzzle_result(rendered: Option<(String, Vec<u8>)>) -> (r: Result<(String, Vec<u8>), SimpleGeneratorError>)
    ensures
        match rendered {
            Some(p) => r == Ok::<(String, Vec<u8>), SimpleGeneratorError>(p),
            None => r == Err::<(String, Vec<u8>), SimpleGeneratorError>(
                SimpleGeneratorError::FaildEncodedToPng,
            ),
        },
{
    match rendered {
        Some(puzzle) => Ok(puzzle),
        None => Err(SimpleGeneratorError::FaildEncodedToPng),
    }
}

impl CaptchaGenerator for SimpleGenerator {
    type Error = SimpleGeneratorError;

    /// An answer of at most six characters with its image, or the PNG error.
    open spec fn produced(&self, r: Result<(String, Vec<u8>), Self::Error>) -> bool {
        match r {
            Ok((a, _)) => a@.len() <= 6,
            Err(e) => e == SimpleGeneratorError::FaildEncodedToPng,
        }
    }

    fn new_captcha(&self) -> (r: Result<(String, Vec<u8>), Self::Error>) {
        puzzle_result(render_captcha(self.name, self.difficulty))
    }
}

/// Stores the answer of a puzzle under a fresh token; returns the token and
/// the puzzle's image.
pub fn store_puzzle<S: CaptchaStorage>(puzzle: (String, Vec<u8>), storage: &mut S) -> (r: Result<
    (String, Vec<u8>),
    S::Error,
>)
    requires
        old(storage).well_formed(),
    ensures
        final(storage).well_formed(),
        match r {
            Ok((t, img)) => {
                &&& img == puzzle.1
                &&& is_uuid_v4_text(t@)
                &&& S::stored(old(storage), final(storage), puzzle.0@, Ok(t))
            },
            Err(e) => S::stored(old(storage), final(storage), puzzle.0@, Err(e)),
        },
        S::is_modelled() ==> (r matches Ok((t, _)) && final(storage).answers() == old(
            storage,
        ).answers().insert(t@, puzzle.0@)),
{
    let (answer, image) = puzzle;
    match storage.store_answer(answer) {
        Ok(token) => Ok((token, image)),
        Err(e) => Err(e),
    }
}

/// Why a challenge could not be issued.
#[derive(Debug)]
pub enum IssueError<G, S> {
    /// The generator failed; nothing was stored.
    Generator(G),
    /// The storage failed to store the answer.
    Storage(S),
}

/// Issues a challenge: a new puzzle from the generator, whose answer is
/// stored under a fresh token (see `store_puzzle`). Returns the token and
/// the puzzle's image.
pub fn issue<G: CaptchaGenerator, S: CaptchaStorage>(generator: &G, storage: &mut S) -> (r: Result<
    (String, Vec<u8>),
    IssueError<G::Error, S::Error>,
>)
    requires
        old(storage).well_formed(),
    ensures
        final(storage).well_formed(),
        r matches Err(IssueError::Generator(e)) ==> *final(storage) == *old(storage)
            && generator.produced(Err(e)),
        r matches Ok((t, _)) ==> is_uuid_v4_text(t@),
        S::is_modelled() ==> !(r matches Err(IssueError::Storage(_))),
        S::is_modelled() && r is Ok ==> exists|a: String|
            #![trigger generator.produced(Ok((a, r->Ok_0.1)))]
            generator.produced(Ok((a, r->Ok_0.1))) && final(storage).answers() == old(
                storage,
            ).answers().insert(r->Ok_0.0@, a@),
{
    let puzzle = match generator.new_captcha() {
        Ok(puzzle) => puzzle,
        Err(e) => return Err(IssueError::Generator(e)),
    };
    let ghost a = puzzle.0;
    match store_puzzle(puzzle, storage) {
        Ok(challenge) => {
            let r = Ok(challenge);
            assert(generator.produced(Ok((a, r->Ok_0.1))));
            assert(S::is_modelled() ==> storage.answers() == old(storage).answers().insert(
                r->Ok_0.0@,
                a@,
            ));
            r
        },
        Err(e) => Err(IssueError::Storage(e)),
    }
}

} // verus!
