//! The lock-recovery rule: lock acquisition never fails structurally. A
//! panic while a standard lock was held poisons it, and the poisoned
//! acquisition still carries the guard; supervision recovers by taking
//! the guard either way instead of propagating the poison. The runtime
//! maps a poisoned acquisition to `Err` with the inner guard and hands it
//! to these functions.

use vstd::prelude::*;

verus! {

/// Recover the guard of a mutex acquisition whether or not the lock was
/// poisoned.
pub fn mutex_lock<T>(acquired: Result<T, T>) -> (guard: T)
    ensures
        match acquired {
            Ok(g) => guard == g,
            Err(g) => guard == g,
        },
{
    match acquired {
        Ok(g) => g,
        Err(g) => g,
    }
}

/// Recover the guard of a read-lock acquisition whether or not the lock
/// was poisoned.
pub fn rwlock_read<T>(acquired: Result<T, T>) -> (guard: T)
    ensures
        match acquired {
            Ok(g) => guard == g,
            Err(g) => guard == g,
        },
{
    match acquired {
        Ok(g) => g,
        Err(g) => g,
    }
}

/// Recover the guard of a write-lock acquisition whether or not the lock
/// was poisoned.
pub fn rwlock_write<T>(acquired: Result<T, T>) -> (guard: T)
    ensures
        match acquired {
            Ok(g) => guard == g,
            Err(g) => guard == g,
        },
{
    match acquired {
        Ok(g) => g,
        Err(g) => g,
    }
}

} // verus!
