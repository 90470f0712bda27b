use vstd::prelude::*;

verus! {

/// Defines whether colors are interpolated with premultiplied alpha.
#[derive(Clone, Copy, Debug, PartialEq, Eq, Structural)]
pub enum InterpolationAlphaSpace {
    /// Colors are interpolated with their color channels premultiplied by
    /// the alpha channel, which keeps interpolation correct when colors are
    /// transparent. This is almost always what you want.
    Premultiplied,
    /// Colors are interpolated without premultiplying their color channels
    /// by the alpha channel, which lets color information leak out of
    /// transparent colors.
    Unpremultiplied,
}

impl Default for InterpolationAlphaSpace {
    /// By default colors are interpolated with premultiplied alpha.
    fn default() -> (r: Self)
        ensures
            r == InterpolationAlphaSpace::Premultiplied,
    {
        InterpolationAlphaSpace::Premultiplied
    }
}

} // verus!
