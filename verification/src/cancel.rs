//! Cancelling a source of messages: the scope whose release sets the
//! signal, and the cutoff that ends the source once the signal has fired.

use tokio_util::sync::CancellationToken;
use tokio_util::sync::DropGuard;
use vstd::prelude::*;

verus! {

#[verifier::external_type_specification]
#[verifier::external_body]
pub struct ExCancellationToken(CancellationToken);

#[verifier::external_type_specification]
#[verifier::external_body]
pub struct ExDropGuard(DropGuard);

/// `CancellationToken::new` of tokio-util: a token of its own, not yet
/// cancelled. Whether a token is cancelled changes under the hands of
/// whoever holds a clone of it, so nothing is claimed of the result.
#[verifier::external_body]
fn fresh_token() -> CancellationToken {
    CancellationToken::new()
}

/// `CancellationToken::clone` of tokio-util: the clone is cancelled whenever
/// the token is, and the other way round. The crate's own `==` on tokens says
/// as much: it holds of a token and its clones. Here the two are one value.
#[verifier::external_body]
fn same_token(token: &CancellationToken) -> (twin: CancellationToken)
    ensures
        twin == *token,
{
    token.clone()
}

/// `CancellationToken::drop_guard` of tokio-util: the guard cancels the
/// token when it is dropped. The guard is opaque, so nothing is claimed of
/// it.
#[verifier::external_body]
fn guard_of(token: CancellationToken) -> DropGuard {
    token.drop_guard()
}

/// The owner of a cancel signal. Letting go of the scope, by
/// [`Scope::release`] or by dropping it, sets the signal; nothing else does.
pub struct Scope {
    guard: DropGuard,
    token: Ghost<CancellationToken>,
}

impl Scope {
    /// The token that this scope sets when it is let go.
    pub closed spec fn token(&self) -> CancellationToken {
        self.token@
    }

    /// Sets the signal. The scope is used up: there is no second release.
    pub fn release(self) {
        let Scope { guard, token } = self;
        let _spent = guard;
    }
}

/// A new cancel signal: the token to watch, and the scope that owns it.
pub fn scope() -> (pair: (CancellationToken, Scope))
    ensures
        pair.1.token() == pair.0,
{
    let token = fresh_token();
    let watch = same_token(&token);
    let guard = guard_of(token);
    (watch, Scope { guard, token: Ghost(watch) })
}

/// What stands between a source that can be cancelled and its consumer.
///
/// Each step of the source is raced against the cancel signal, and the
/// outcome is handed to [`Cutoff::pass`]: `Some(item)` when the source
/// produced an item first, `None` when the signal fired first. Items get
/// through until the signal has fired once, and nothing after that.
pub struct Cutoff {
    shut: bool,
}

impl Cutoff {
    /// Whether the signal has fired.
    pub closed spec fn is_shut(&self) -> bool {
        self.shut
    }

    /// A cutoff that lets everything through so far.
    pub fn new() -> (cutoff: Cutoff)
        ensures
            !cutoff.is_shut(),
    {
        Cutoff { shut: false }
    }

    /// Takes the outcome of one race. Gives the item to pass on, or `None`
    /// when the source is to end here.
    pub fn pass<T>(&mut self, raced: Option<T>) -> (out: Option<T>)
        ensures
            final(self).is_shut() == (old(self).is_shut() || raced is None),
            out == if old(self).is_shut() {
                None
            } else {
                raced
            },
    {
        if self.shut {
            return None;
        }
        if raced.is_none() {
            self.shut = true;
        }
        raced
    }
}

/// The items that get through over a run of races: those before the first
/// race that the signal won, and none if the signal had fired before.
pub open spec fn let_through<T>(shut: bool, races: Seq<Option<T>>) -> Seq<T>
    decreases races.len(),
{
    if shut || races.len() == 0 {
        Seq::empty()
    } else {
        match races[0] {
            Some(item) => seq![item] + let_through(false, races.drop_first()),
            None => Seq::empty(),
        }
    }
}

/// One call of [`Cutoff::pass`] is one step of [`let_through`]: what gets
/// through over a run of races is what the first race lets through, followed
/// by what the rest lets through from where the first race left off.
pub proof fn pass_is_one_step<T>(shut: bool, raced: Option<T>, rest: Seq<Option<T>>)
    ensures
        let_through(shut, seq![raced] + rest) == (if shut {
            Seq::<T>::empty()
        } else {
            match raced {
                Some(item) => seq![item],
                None => Seq::<T>::empty(),
            }
        }) + let_through(shut || raced is None, rest),
{
    let races = seq![raced] + rest;
    assert(races.drop_first() =~= rest);
    if shut || raced is None {
        assert(let_through(true, rest) =~= Seq::<T>::empty());
        assert(let_through(shut, races) =~= Seq::<T>::empty());
    } else {
        assert(let_through(shut, races) =~= seq![raced->Some_0] + let_through(false, rest));
    }
}

/// Until the signal fires nothing is held back: every item passes, in the
/// order it was produced.
pub proof fn all_pass_before_cancel<T>(items: Seq<T>)
    ensures
        let_through(false, items.map_values(|item: T| Some(item))) == items,
    decreases items.len(),
{
    let races = items.map_values(|item: T| Some(item));
    if items.len() == 0 {
        assert(let_through(false, races) =~= items);
    } else {
        all_pass_before_cancel(items.drop_first());
        assert(races.drop_first() =~= items.drop_first().map_values(|item: T| Some(item)));
        assert(let_through(false, races) =~= items);
    }
}

/// Once the signal has fired nothing more gets through, whatever the source
/// goes on to produce; what got through before stays as it was.
pub proof fn nothing_passes_after_cancel<T>(before: Seq<Option<T>>, after: Seq<Option<T>>)
    ensures
        let_through(false, before + seq![None] + after) == let_through(false, before),
        let_through(true, after) == Seq::<T>::empty(),
    decreases before.len(),
{
    let all = before + seq![None] + after;
    if before.len() == 0 {
        assert(all[0] is None);
    } else {
        assert(all[0] == before[0]);
        assert(all.drop_first() =~= before.drop_first() + seq![None] + after);
        nothing_passes_after_cancel(before.drop_first(), after);
    }
}

} // verus!
