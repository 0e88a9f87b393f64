//! Display-side configuration enums: the colormap used for the gradient
//! visualisation, and the sort column / order pair that drives the table.

use vstd::prelude::*;

verus! {

/// Available colormaps for the gradient visualisation. Cycling wraps across
/// the fixed set in a stable order.
#[derive(Debug, Clone, Copy, PartialEq, Eq, Structural)]
pub enum Colormap {
    Turbo,
    Spectral,
    Inferno,
    Magma,
    Plasma,
    Viridis,
    Rainbow,
    Cividis,
    Warm,
    Cool,
}

impl Colormap {
    /// Next colormap in the cycle; `prev` inverts this step.
    pub fn next(&self) -> (r: Self)
        ensures
            r == self.spec_next(),
    {
        match self {
            Colormap::Inferno => Colormap::Magma,
            Colormap::Magma => Colormap::Plasma,
            Colormap::Plasma => Colormap::Viridis,
            Colormap::Viridis => Colormap::Turbo,
            Colormap::Turbo => Colormap::Spectral,
            Colormap::Spectral => Colormap::Rainbow,
            Colormap::Rainbow => Colormap::Cividis,
            Colormap::Cividis => Colormap::Warm,
            Colormap::Warm => Colormap::Cool,
            Colormap::Cool => Colormap::Inferno,
        }
    }

    /// Previous colormap in the cycle; inverse of `next`.
    pub fn prev(&self) -> (r: Self)
        ensures
            r == self.spec_prev(),
            r.spec_next() == *self,
    {
        match self {
            Colormap::Inferno => Colormap::Cool,
            Colormap::Magma => Colormap::Inferno,
            Colormap::Plasma => Colormap::Magma,
            Colormap::Viridis => Colormap::Plasma,
            Colormap::Turbo => Colormap::Viridis,
            Colormap::Spectral => Colormap::Turbo,
            Colormap::Rainbow => Colormap::Spectral,
            Colormap::Cividis => Colormap::Rainbow,
            Colormap::Warm => Colormap::Cividis,
            Colormap::Cool => Colormap::Warm,
        }
    }

    pub open spec fn spec_next(self) -> Self {
        match self {
            Colormap::Inferno => Colormap::Magma,
            Colormap::Magma => Colormap::Plasma,
            Colormap::Plasma => Colormap::Viridis,
            Colormap::Viridis => Colormap::Turbo,
            Colormap::Turbo => Colormap::Spectral,
            Colormap::Spectral => Colormap::Rainbow,
            Colormap::Rainbow => Colormap::Cividis,
            Colormap::Cividis => Colormap::Warm,
            Colormap::Warm => Colormap::Cool,
            Colormap::Cool => Colormap::Inferno,
        }
    }

    pub open spec fn spec_prev(self) -> Self {
        match self {
            Colormap::Inferno => Colormap::Cool,
            Colormap::Magma => Colormap::Inferno,
            Colormap::Plasma => Colormap::Magma,
            Colormap::Viridis => Colormap::Plasma,
            Colormap::Turbo => Colormap::Viridis,
            Colormap::Spectral => Colormap::Turbo,
            Colormap::Rainbow => Colormap::Spectral,
            Colormap::Cividis => Colormap::Rainbow,
            Colormap::Warm => Colormap::Cividis,
            Colormap::Cool => Colormap::Warm,
        }
    }
}

impl Default for Colormap {
    fn default() -> (r: Self)
        ensures
            r == Colormap::Turbo,
    {
        Colormap::Turbo
    }
}

/// Column the index table is currently keyed by.
#[derive(Debug, Clone, Copy, PartialEq, Eq, Structural)]
pub enum SortColumn {
    Name,
    DocCount,
    Rate,
    Size,
    Health,
}

impl SortColumn {
    /// Next column in the fixed cycle Name, DocCount, Rate, Size, Health.
    pub fn next(&self) -> (r: Self)
        ensures
            r == self.spec_next(),
    {
        match self {
            SortColumn::Name => SortColumn::DocCount,
            SortColumn::DocCount => SortColumn::Rate,
            SortColumn::Rate => SortColumn::Size,
            SortColumn::Size => SortColumn::Health,
            SortColumn::Health => SortColumn::Name,
        }
    }

    /// Previous column in the cycle; inverse of `next`.
    pub fn prev(&self) -> (r: Self)
        ensures
            r == self.spec_prev(),
            r.spec_next() == *self,
    {
        match self {
            SortColumn::Name => SortColumn::Health,
            SortColumn::DocCount => SortColumn::Name,
            SortColumn::Rate => SortColumn::DocCount,
            SortColumn::Size => SortColumn::Rate,
            SortColumn::Health => SortColumn::Size,
        }
    }

    pub open spec fn spec_next(self) -> Self {
        match self {
            SortColumn::Name => SortColumn::DocCount,
            SortColumn::DocCount => SortColumn::Rate,
            SortColumn::Rate => SortColumn::Size,
            SortColumn::Size => SortColumn::Health,
            SortColumn::Health => SortColumn::Name,
        }
    }

    pub open spec fn spec_prev(self) -> Self {
        match self {
            SortColumn::Name => SortColumn::Health,
            SortColumn::DocCount => SortColumn::Name,
            SortColumn::Rate => SortColumn::DocCount,
            SortColumn::Size => SortColumn::Rate,
            SortColumn::Health => SortColumn::Size,
        }
    }
}

impl Default for SortColumn {
    fn default() -> (r: Self)
        ensures
            r == SortColumn::Rate,
    {
        SortColumn::Rate
    }
}

/// Direction of the active sort.
#[derive(Debug, Clone, Copy, PartialEq, Eq, Structural)]
pub enum SortOrder {
    Ascending,
    Descending,
}

impl SortOrder {
    /// Flips Ascending and Descending; an involution.
    pub fn toggle(&self) -> (r: Self)
        ensures
            r == self.spec_toggle(),
            r.spec_toggle() == *self,
            r != *self,
    {
        match self {
            SortOrder::Ascending => SortOrder::Descending,
            SortOrder::Descending => SortOrder::Ascending,
        }
    }

    pub open spec fn spec_toggle(self) -> Self {
        match self {
            SortOrder::Ascending => SortOrder::Descending,
            SortOrder::Descending => SortOrder::Ascending,
        }
    }
}

impl Default for SortOrder {
    fn default() -> (r: Self)
        ensures
            r == SortOrder::Descending,
    {
        SortOrder::Descending
    }
}

} // verus!
