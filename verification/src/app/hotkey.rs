//! Global hotkey bookkeeping: the replace-or-restore rule.
//!
//! `HotkeyState` owns the currently registered shortcut: unregister the old one, try the new
//! one, and if that fails put the old one back and report `HotkeyUnavailable`. The platform
//! registration is reached through the small `Registrar` trait; parsing the accelerator text
//! into a shortcut value `K` is the runtime's job.
use vstd::prelude::*;

use crate::model::error::{AppError, ErrorKind};

verus! {

/// Opaque failure from the OS / plugin; details are logged, never surfaced.
#[derive(Debug, Clone, Copy, PartialEq, Eq, Structural)]
pub struct RegistrarError;

/// Minimal registration interface over the global-shortcut plugin.
pub trait Registrar<K> {
    fn register(&self, shortcut: &K) -> Result<(), RegistrarError>;

    fn unregister(&self, shortcut: &K) -> Result<(), RegistrarError>;
}

/// The shortcut that stays registered, and the answer, after trying to replace `current` by
/// `next`: `next` when its registration succeeded; otherwise the previous shortcut when it could
/// be registered again, else none, with `HotkeyUnavailable`.
pub open spec fn spec_hotkey_outcome<K>(
    current: Option<K>,
    next: K,
    next_registered: bool,
    previous_restored: bool,
) -> (Option<K>, Result<(), AppError>) {
    if next_registered {
        (Some(next), Ok(()))
    } else if current is Some && previous_restored {
        (current, Err(AppError { kind: ErrorKind::HotkeyUnavailable }))
    } else {
        (None, Err(AppError { kind: ErrorKind::HotkeyUnavailable }))
    }
}

/// The shortcut that stays registered, and the answer, after trying to replace `current` by
/// `next`, given whether `next` could be registered and whether the previous shortcut could be
/// registered again.
pub fn hotkey_outcome<K>(current: Option<K>, next: K, next_registered: bool, previous_restored: bool) -> (res:
    (Option<K>, Result<(), AppError>))
    ensures
        res == spec_hotkey_outcome(current, next, next_registered, previous_restored),
{
    if next_registered {
        (Some(next), Ok(()))
    } else {
        match current {
            Some(previous) => if previous_restored {
                (Some(previous), Err(AppError { kind: ErrorKind::HotkeyUnavailable }))
            } else {
                (None, Err(AppError { kind: ErrorKind::HotkeyUnavailable }))
            },
            None => (None, Err(AppError { kind: ErrorKind::HotkeyUnavailable })),
        }
    }
}

/// A registrar call succeeded.
pub open spec fn succeeded(r: Result<(), RegistrarError>) -> bool {
    r is Ok
}

/// The currently registered global shortcut, if any.
#[derive(Debug)]
pub struct HotkeyState<K> {
    current: Option<K>,
}

impl<K> Default for HotkeyState<K> {
    fn default() -> (res: Self)
        ensures
            res.spec_current() is None,
    {
        HotkeyState { current: None }
    }
}

impl<K> HotkeyState<K> {
    /// The registered shortcut.
    pub closed spec fn spec_current(&self) -> Option<K> {
        self.current
    }
}

impl<K: Copy + PartialEq> HotkeyState<K> {
    pub fn current(&self) -> (res: Option<K>)
        ensures
            res == self.spec_current(),
    {
        self.current
    }

    /// Make `next` (the parsed shortcut, `None` when the text did not parse) the active hotkey.
    /// On any failure the previously active hotkey stays (or is restored) and
    /// `HotkeyUnavailable` is returned.
    pub fn apply<R: Registrar<K>>(&mut self, registrar: &R, next: Option<K>) -> (res: Result<
        (),
        AppError,
    >)
        requires
            vstd::laws_eq::obeys_concrete_eq::<K>(),
        ensures
            next is None ==> {
                &&& res == Err::<(), AppError>(AppError { kind: ErrorKind::HotkeyUnavailable })
                &&& final(self).spec_current() == old(self).spec_current()
            },
            next is Some && old(self).spec_current() == next ==> {
                &&& res == Ok::<(), AppError>(())
                &&& final(self).spec_current() == old(self).spec_current()
            },
            next is Some && old(self).spec_current() != next ==> {
                &&& old(self).spec_current() is Some ==> exists|u: Result<(), RegistrarError>|
                    #[trigger] call_ensures(
                        R::unregister,
                        (registrar, &old(self).spec_current()->0),
                        u,
                    )
                &&& exists|r1: Result<(), RegistrarError>, r2: Result<(), RegistrarError>|
                    #![trigger call_ensures(R::register, (registrar, &next->0), r1), succeeded(r2)]
                    call_ensures(R::register, (registrar, &next->0), r1) && (r1 is Err
                        && old(self).spec_current() is Some ==> call_ensures(
                        R::register,
                        (registrar, &old(self).spec_current()->0),
                        r2,
                    )) && (final(self).spec_current(), res) == spec_hotkey_outcome(
                        old(self).spec_current(),
                        next->0,
                        succeeded(r1),
                        succeeded(r2),
                    )
            },
    {
        proof {
            reveal(vstd::laws_eq::obeys_concrete_eq);
        }
        let next = match next {
            Some(k) => k,
            None => {
                return Err(AppError { kind: ErrorKind::HotkeyUnavailable });
            },
        };
        let same = match self.current {
            Some(c) => c == next,
            None => false,
        };
        if same {
            return Ok(());
        }
        if let Some(previous) = self.current {
            let u = registrar.unregister(&previous);
            assert(call_ensures(R::unregister, (registrar, &previous), u));
        }
        let r1 = registrar.register(&next);
        let registered = r1.is_ok();
        let mut r2: Result<(), RegistrarError> = Err(RegistrarError);
        if !registered {
            if let Some(previous) = self.current {
                r2 = registrar.register(&previous);
            }
        }
        let restored = r2.is_ok();
        let (current, res) = hotkey_outcome(self.current, next, registered, restored);
        assert(succeeded(r1) == registered && succeeded(r2) == restored);
        self.current = current;
        res
    }
}

} // verus!
