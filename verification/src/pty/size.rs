//! Window sizes and the user's overrides of them.

use vstd::prelude::*;

verus! {

/// Columns assumed when the terminal cannot be asked for its size.
pub const FALLBACK_COLS: u16 = 80;

/// Rows assumed when the terminal cannot be asked for its size.
pub const FALLBACK_ROWS: u16 = 24;

/// Terminal dimensions in character cells. Pixel dimensions are not kept:
/// the supervisor always reports them as zero.
#[derive(Clone, Copy, Debug, PartialEq, Eq, Structural)]
pub struct WindowSize {
    pub cols: u16,
    pub rows: u16,
}

/// Dimensions chosen by the user in place of the measured ones.
#[derive(Clone, Copy, Debug, PartialEq, Eq, Structural)]
pub struct SizeOverride {
    pub cols: Option<u16>,
    pub rows: Option<u16>,
}

impl WindowSize {
    /// The size assumed when measuring fails.
    pub open spec fn spec_fallback() -> WindowSize {
        WindowSize { cols: FALLBACK_COLS, rows: FALLBACK_ROWS }
    }

    /// `self` with each overridden axis replaced.
    pub open spec fn spec_with_override(self, o: SizeOverride) -> WindowSize {
        WindowSize {
            cols: match o.cols {
                Some(c) => c,
                None => self.cols,
            },
            rows: match o.rows {
                Some(r) => r,
                None => self.rows,
            },
        }
    }

    /// The size assumed when measuring fails: 80 columns by 24 rows.
    #[verifier::when_used_as_spec(spec_fallback)]
    pub fn fallback() -> (r: WindowSize)
        ensures
            r == Self::spec_fallback(),
            r.cols == 80,
            r.rows == 24,
    {
        WindowSize { cols: FALLBACK_COLS, rows: FALLBACK_ROWS }
    }

    /// Replaces each axis for which `o` names a value and keeps the other.
    #[verifier::when_used_as_spec(spec_with_override)]
    pub fn with_override(self, o: SizeOverride) -> (r: WindowSize)
        ensures
            r == self.spec_with_override(o),
            o.cols is Some ==> r.cols == o.cols->0,
            o.cols is None ==> r.cols == self.cols,
            o.rows is Some ==> r.rows == o.rows->0,
            o.rows is None ==> r.rows == self.rows,
    {
        let cols: u16 = match o.cols {
            Some(c) => c,
            None => self.cols,
        };
        let rows: u16 = match o.rows {
            Some(r) => r,
            None => self.rows,
        };
        WindowSize { cols, rows }
    }

    /// The size as the pair `(cols, rows)` that a sink is given.
    pub fn as_pair(self) -> (r: (u16, u16))
        ensures
            r == (self.cols, self.rows),
    {
        (self.cols, self.rows)
    }
}

impl SizeOverride {
    /// The override that replaces nothing.
    pub fn none() -> (r: SizeOverride)
        ensures
            r == (SizeOverride { cols: None, rows: None }),
    {
        SizeOverride { cols: None, rows: None }
    }
}

/// The size a session works with, given what the terminal answered.
pub open spec fn spec_effective_size(measured: Option<WindowSize>, o: SizeOverride) -> WindowSize {
    match measured {
        Some(size) => size.spec_with_override(o),
        None => WindowSize::spec_fallback().spec_with_override(o),
    }
}

/// The size a session works with: the measured size, or 80 by 24 when the
/// terminal could not be measured, with the user's overrides applied on top.
#[verifier::when_used_as_spec(spec_effective_size)]
pub fn effective_size(measured: Option<WindowSize>, o: SizeOverride) -> (r: WindowSize)
    ensures
        r == spec_effective_size(measured, o),
{
    match measured {
        Some(size) => size.with_override(o),
        None => WindowSize::fallback().with_override(o),
    }
}

/// Applying the same override twice changes nothing more, and an override
/// of both axes decides the size whatever was measured.
pub proof fn lemma_override_idempotent(size: WindowSize, o: SizeOverride)
    ensures
        size.spec_with_override(o).spec_with_override(o) == size.spec_with_override(o),
        o.cols is Some && o.rows is Some ==> size.spec_with_override(o) == (WindowSize {
            cols: o.cols->0,
            rows: o.rows->0,
        }),
{
}

} // verus!
