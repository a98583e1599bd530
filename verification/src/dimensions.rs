use vstd::prelude::*;

use core::marker::PhantomData;

use crate::space::Screen;

verus! {

/// Role marker: a horizontal extent.
#[derive(Copy, Clone, PartialEq, Eq, Debug)]
pub struct Width;

/// Role marker: a vertical extent.
#[derive(Copy, Clone, PartialEq, Eq, Debug)]
pub struct Height;

/// A magnitude that is guaranteed positive at construction, tagged by the
/// coordinate space it lives in and by its role (width or height), so that
/// values from different spaces or roles cannot be mixed up.
///
/// The tags have no runtime representation; the only data is the magnitude.
#[derive(PartialEq, Debug)]
pub struct Dimension<Space, Tag, Kind> {
    value: Kind,
    phantom: PhantomData<(Space, Tag)>,
}

impl<Space, Tag, Kind: Copy> Clone for Dimension<Space, Tag, Kind> {
    fn clone(&self) -> (r: Self)
        ensures
            r == *self,
    {
        *self
    }
}

impl<Space, Tag, Kind: Copy> Copy for Dimension<Space, Tag, Kind> {

}

/// A validated width and height in one coordinate space.
#[derive(PartialEq, Debug)]
pub struct Dimensions2D<Space, Kind> {
    width: Dimension<Space, Width, Kind>,
    height: Dimension<Space, Height, Kind>,
}

impl<Space, Kind: Copy> Clone for Dimensions2D<Space, Kind> {
    fn clone(&self) -> (r: Self)
        ensures
            r == *self,
    {
        *self
    }
}

impl<Space, Kind: Copy> Copy for Dimensions2D<Space, Kind> {

}

pub type ScreenWidth = Dimension<Screen, Width, u32>;

pub type ScreenHeight = Dimension<Screen, Height, u32>;

pub type ScreenDimensions = Dimensions2D<Screen, u32>;

impl<Space, Tag, Kind> Dimension<Space, Tag, Kind> {
    /// The stored magnitude.
    pub closed spec fn spec_get(self) -> Kind {
        self.value
    }

    pub fn get(&self) -> (r: Kind) where Kind: Copy
        ensures
            r == self.spec_get(),
    {
        self.value
    }
}

impl<Space, Tag> Dimension<Space, Tag, u32> {
    /// Accepts exactly the positive magnitudes; zero is rejected.
    pub fn new(value: u32) -> (r: Option<Self>)
        ensures
            r is Some <==> value > 0,
            r matches Some(d) ==> d.spec_get() == value,
    {
        if value > 0 {
            Some(Dimension { value, phantom: PhantomData })
        } else {
            None
        }
    }
}

impl<Space, Kind> Dimensions2D<Space, Kind> {
    pub closed spec fn spec_width(self) -> Dimension<Space, Width, Kind> {
        self.width
    }

    pub closed spec fn spec_height(self) -> Dimension<Space, Height, Kind> {
        self.height
    }

    pub fn width(self) -> (r: Dimension<Space, Width, Kind>)
        ensures
            r == self.spec_width(),
    {
        self.width
    }

    pub fn height(self) -> (r: Dimension<Space, Height, Kind>)
        ensures
            r == self.spec_height(),
    {
        self.height
    }
}

impl<Space> Dimensions2D<Space, u32> {
    /// Succeeds exactly when both extents are positive.
    pub fn new(width: u32, height: u32) -> (r: Option<Self>)
        ensures
            r is Some <==> width > 0 && height > 0,
            r matches Some(d) ==> {
                &&& d.spec_width().spec_get() == width
                &&& d.spec_height().spec_get() == height
            },
    {
        let w = Dimension::<Space, Width, u32>::new(width);
        let h = Dimension::<Space, Height, u32>::new(height);
        match (w, h) {
            (Some(width), Some(height)) => Some(Dimensions2D { width, height }),
            _ => None,
        }
    }
}

} // verus!
