use vstd::prelude::*;

use rand::rngs::StdRng;
use rand::Rng;

verus! {

/// The result of evaluating one guess against the secret number.
#[derive(Debug, PartialEq, Eq, Structural)]
pub enum GuessResult {
    Correct,
    TooHigh,
    TooLow,
    NoMoreLives,
}

/// The outcome of evaluating `guess` against `secret` when `attempts`
/// attempts remain: an exhausted game always answers `NoMoreLives`, and an
/// active game answers with the three-way comparison of guess and secret.
pub open spec fn outcome_of(attempts: u32, guess: u32, secret: u32) -> GuessResult {
    if attempts == 0 {
        GuessResult::NoMoreLives
    } else if guess == secret {
        GuessResult::Correct
    } else if guess < secret {
        GuessResult::TooLow
    } else {
        GuessResult::TooHigh
    }
}

/// The attempts remaining after evaluating `guess` against `secret` when
/// `attempts` attempts remain: only an incorrect guess in an active game
/// consumes an attempt.
pub open spec fn attempts_after_guess(attempts: u32, guess: u32, secret: u32) -> u32 {
    if attempts == 0 || guess == secret {
        attempts
    } else {
        (attempts - 1) as u32
    }
}

/// The attempts remaining after evaluating a whole sequence of guesses
/// in order, starting from `attempts` attempts.
pub open spec fn attempts_after_guesses(attempts: u32, guesses: Seq<u32>, secret: u32) -> u32
    decreases guesses.len(),
{
    if guesses.len() == 0 {
        attempts
    } else {
        attempts_after_guesses(
            attempts_after_guess(attempts, guesses[0], secret),
            guesses.drop_first(),
            secret,
        )
    }
}

/// Performs the comparison between a guess and the secret number.
pub fn compare(guess: u32, secret: u32) -> (r: GuessResult)
    ensures
        r == GuessResult::Correct <==> guess == secret,
        r == GuessResult::TooLow <==> guess < secret,
        r == GuessResult::TooHigh <==> guess > secret,
{
    if guess == secret {
        GuessResult::Correct
    } else if guess < secret {
        GuessResult::TooLow
    } else {
        GuessResult::TooHigh
    }
}

#[verifier::external_type_specification]
#[verifier::external_body]
pub struct ExStdRng(StdRng);

/// Relies on rand's `Rng::gen_range` over the inclusive range `lo..=hi`:
/// it draws a value uniformly from within the bounds, and panics only on an
/// empty range, which the precondition rules out. Nothing is assumed about
/// which value comes back beyond its bounds.
#[verifier::external_body]
fn draw_in_range(rng: &mut StdRng, lo: u32, hi: u32) -> (r: u32)
    requires
        lo <= hi,
    ensures
        lo <= r <= hi,
{
    rng.gen_range(lo..=hi)
}

/// Relies on `StdRng`'s derived `Clone` to copy the generator's state.
/// Nothing is assumed about the copy.
#[verifier::external_body]
fn clone_rng(rng: &StdRng) -> StdRng {
    rng.clone()
}

/// Represents a number guessing game.
pub struct Game {
    pub min_num: u32,
    pub max_num: u32,
    pub lives: u32,
    pub rng: StdRng,
    pub secret_number: u32,
}

impl Game {
    pub const MIN_NUM: u32 = 1;

    pub const MAX_NUM: u32 = 20;

    pub const LIVES: u32 = 10;

    /// Creates a new instance of the `Game` struct.
    ///
    /// The caller is responsible for supplying a lower bound that does not
    /// exceed the upper bound once the defaults are filled in; within those
    /// bounds the secret number is drawn from the given random source.
    pub fn new(
        min_num: Option<u32>,
        max_num: Option<u32>,
        lives: Option<u32>,
        rng: &mut StdRng,
    ) -> (game: Game)
        requires
            min_num.unwrap_or(Game::MIN_NUM) <= max_num.unwrap_or(Game::MAX_NUM),
        ensures
            game.min_num == min_num.unwrap_or(Game::MIN_NUM),
            game.max_num == max_num.unwrap_or(Game::MAX_NUM),
            game.lives == lives.unwrap_or(Game::LIVES),
            game.min_num <= game.secret_number <= game.max_num,
    {
        let secret_number = draw_in_range(
            rng,
            min_num.unwrap_or(Self::MIN_NUM),
            max_num.unwrap_or(Self::MAX_NUM),
        );
        Game {
            min_num: min_num.unwrap_or(Self::MIN_NUM),
            max_num: max_num.unwrap_or(Self::MAX_NUM),
            lives: lives.unwrap_or(Self::LIVES),
            rng: clone_rng(rng),
            secret_number,
        }
    }

    /// Returns a reference to the random number generator.
    pub fn rng(&self) -> (r: &StdRng)
        ensures
            r == &self.rng,
    {
        &self.rng
    }
}

/// Defines the behavior of the number guessing game.
pub trait GameTrait {
    /// The inclusive lower bound of the guessable range.
    spec fn minimum(&self) -> u32;

    /// The inclusive upper bound of the guessable range.
    spec fn maximum(&self) -> u32;

    /// The number of attempts the player has left.
    spec fn attempts_remaining(&self) -> u32;

    /// The hidden number the player is after.
    spec fn secret(&self) -> u32;

    /// Runs the number guessing game: evaluates `guess` against the secret
    /// number, consuming one attempt exactly when an active game sees an
    /// incorrect guess, and leaving the range and the secret unchanged.
    fn play(&mut self, guess: u32) -> (r: GuessResult)
        ensures
            r == outcome_of(old(self).attempts_remaining(), guess, old(self).secret()),
            final(self).attempts_remaining() == attempts_after_guess(
                old(self).attempts_remaining(),
                guess,
                old(self).secret(),
            ),
            final(self).minimum() == old(self).minimum(),
            final(self).maximum() == old(self).maximum(),
            final(self).secret() == old(self).secret(),
    ;

    /// Returns the minimum value for the secret number.
    fn min_num(&self) -> (r: u32)
        ensures
            r == self.minimum(),
    ;

    /// Returns the maximum value for the secret number.
    fn max_num(&self) -> (r: u32)
        ensures
            r == self.maximum(),
    ;

    /// Returns the number of lives the player has.
    fn lives(&self) -> (r: u32)
        ensures
            r == self.attempts_remaining(),
    ;
}

impl GameTrait for Game {
    open spec fn minimum(&self) -> u32 {
        self.min_num
    }

    open spec fn maximum(&self) -> u32 {
        self.max_num
    }

    open spec fn attempts_remaining(&self) -> u32 {
        self.lives
    }

    open spec fn secret(&self) -> u32 {
        self.secret_number
    }

    fn play(&mut self, guess: u32) -> (r: GuessResult) {
        if self.lives() == 0 {
            return GuessResult::NoMoreLives;
        }
        let result = compare(guess, self.secret_number);
        if result != GuessResult::Correct {
            self.lives -= 1;
        }
        result
    }

    fn min_num(&self) -> u32 {
        self.min_num
    }

    fn max_num(&self) -> u32 {
        self.max_num
    }

    fn lives(&self) -> u32 {
        self.lives
    }
}

/// A correct guess never consumes an attempt: evaluating the secret number
/// itself leaves the attempts remaining unchanged, whatever their count.
pub proof fn lemma_correct_guess_keeps_attempts(attempts: u32, secret: u32)
    ensures
        attempts_after_guess(attempts, secret, secret) == attempts,
{
}

/// An exhausted game is terminal: once no attempts remain, any further
/// sequence of guesses leaves the count at zero, and every single guess is
/// answered with `NoMoreLives`.
pub proof fn lemma_exhausted_is_terminal(guesses: Seq<u32>, secret: u32)
    ensures
        attempts_after_guesses(0, guesses, secret) == 0,
        forall|g: u32| outcome_of(0, g, secret) == GuessResult::NoMoreLives,
    decreases guesses.len(),
{
    if guesses.len() > 0 {
        lemma_exhausted_is_terminal(guesses.drop_first(), secret);
    }
}

/// As many consecutive incorrect guesses as there are attempts exhaust the
/// game: no attempts remain afterwards, and the next guess, whatever its
/// value, is answered with `NoMoreLives`.
pub proof fn lemma_incorrect_guesses_exhaust(attempts: u32, guesses: Seq<u32>, secret: u32)
    requires
        attempts > 0,
        guesses.len() == attempts,
        forall|i: int| 0 <= i < guesses.len() ==> guesses[i] != secret,
    ensures
        attempts_after_guesses(attempts, guesses, secret) == 0,
        forall|g: u32|
            outcome_of(attempts_after_guesses(attempts, guesses, secret), g, secret)
                == GuessResult::NoMoreLives,
    decreases attempts,
{
    let rest = guesses.drop_first();
    assert(forall|i: int| 0 <= i < rest.len() ==> rest[i] == guesses[i + 1]);
    if attempts == 1 {
        assert(attempts_after_guesses(attempts, guesses, secret)
            == attempts_after_guesses(0, rest, secret));
    } else {
        lemma_incorrect_guesses_exhaust((attempts - 1) as u32, rest, secret);
    }
}

} // verus!
