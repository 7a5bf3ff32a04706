use vstd::prelude::*;

verus! {

/// The three return shapes a produce or stop callback may use: an explicit
/// fallible result, an optional presence marker, or no value at all.
///
/// Callers map whatever their callback returned into one of these variants at
/// the call boundary; the scheduler itself only ever sees an [`Outcome`].
#[derive(Debug, PartialEq, Eq)]
pub enum DataGenReturn {
    /// The callback reported success, or an explicit failure with a message.
    Fallible(Result<(), String>),
    /// The callback reported presence (keep going) or absence (stop).
    Presence(Option<()>),
    /// The callback returned no value: implicit success.
    Unit,
}

/// One decision for the scheduler: keep producing, or stop, with a failure
/// message exactly when the stop is an error rather than a normal end.
#[derive(Debug, PartialEq, Eq)]
pub enum Outcome {
    Continue,
    Stop(Option<String>),
}

/// What to do when a produce callback reports an explicit failure: log it and
/// keep the run alive, or abort the run.
#[derive(Clone, Copy, Debug, PartialEq, Eq, Structural)]
pub enum FailurePolicy {
    LogAndContinue,
    Abort,
}

impl DataGenReturn {
    /// Adapter for a callback written with an explicit fallible result.
    pub fn from_result(r: Result<(), String>) -> (d: DataGenReturn)
        ensures
            d == DataGenReturn::Fallible(r),
    {
        DataGenReturn::Fallible(r)
    }

    /// Adapter for a callback written with an optional presence marker.
    pub fn from_presence(o: Option<()>) -> (d: DataGenReturn)
        ensures
            d == DataGenReturn::Presence(o),
    {
        DataGenReturn::Presence(o)
    }

    /// Adapter for a callback that returns nothing.
    pub fn from_unit() -> (d: DataGenReturn)
        ensures
            d == DataGenReturn::Unit,
    {
        DataGenReturn::Unit
    }

    /// The shapes on which unchecked access would panic: an explicit
    /// failure or an absent optional.
    pub open spec fn is_failure(self) -> bool {
        match self {
            DataGenReturn::Fallible(r) => r is Err,
            DataGenReturn::Presence(o) => o is None,
            DataGenReturn::Unit => false,
        }
    }

    /// Consumes the value, which must not hold a failure shape.
    pub fn unwrap(self)
        requires
            !self.is_failure(),
    {
        match self {
            DataGenReturn::Fallible(r) => {
                match r {
                    Ok(()) => {}
                    Err(_) => {
                        proof {
                            assert(false);
                        }
                    }
                }
            }
            DataGenReturn::Presence(o) => {
                match o {
                    Some(()) => {}
                    None => {
                        proof {
                            assert(false);
                        }
                    }
                }
            }
            DataGenReturn::Unit => {}
        }
    }
}

/// The single folding rule for heterogeneous callback returns: an explicit
/// failure means stop with its error, an empty optional means stop without an
/// error, and success, presence or no return value all mean continue.
pub open spec fn normalized(d: DataGenReturn) -> Outcome {
    match d {
        DataGenReturn::Fallible(r) => match r {
            Ok(u) => Outcome::Continue,
            Err(e) => Outcome::Stop(Some(e)),
        },
        DataGenReturn::Presence(o) => match o {
            Some(u) => Outcome::Continue,
            None => Outcome::Stop(None),
        },
        DataGenReturn::Unit => Outcome::Continue,
    }
}

/// Folds any callback return shape into the one decision the scheduler reads.
pub fn normalize(d: DataGenReturn) -> (o: Outcome)
    ensures
        o == normalized(d),
{
    match d {
        DataGenReturn::Fallible(r) => {
            match r {
                Ok(()) => Outcome::Continue,
                Err(e) => Outcome::Stop(Some(e)),
            }
        }
        DataGenReturn::Presence(o) => {
            match o {
                Some(()) => Outcome::Continue,
                None => Outcome::Stop(None),
            }
        }
        DataGenReturn::Unit => Outcome::Continue,
    }
}

/// Like [`normalize`], for a callback that may not have been registered at
/// all: an absent callback always means continue.
pub fn normalize_optional(d: Option<DataGenReturn>) -> (o: Outcome)
    ensures
        o == match d {
            Some(inner) => normalized(inner),
            None => Outcome::Continue,
        },
{
    match d {
        Some(inner) => normalize(inner),
        None => Outcome::Continue,
    }
}

/// How a production outcome is acted on under `policy`: an explicit failure
/// is swallowed (after logging) or kept depending on the policy, while a
/// normal stop and a continue pass through unchanged.
pub open spec fn resolved_production(policy: FailurePolicy, o: Outcome) -> Outcome {
    match o {
        Outcome::Stop(detail) => match detail {
            Some(message) => match policy {
                FailurePolicy::LogAndContinue => Outcome::Continue,
                FailurePolicy::Abort => Outcome::Stop(Some(message)),
            },
            None => Outcome::Stop(None),
        },
        Outcome::Continue => Outcome::Continue,
    }
}

/// Applies the configured failure policy to a produce callback's outcome.
pub fn resolve_production_failure(policy: FailurePolicy, o: Outcome) -> (r: Outcome)
    ensures
        r == resolved_production(policy, o),
{
    match o {
        Outcome::Stop(detail) => {
            match detail {
                Some(message) => {
                    match policy {
                        FailurePolicy::LogAndContinue => Outcome::Continue,
                        FailurePolicy::Abort => Outcome::Stop(Some(message)),
                    }
                }
                None => Outcome::Stop(None),
            }
        }
        Outcome::Continue => Outcome::Continue,
    }
}

} // verus!
