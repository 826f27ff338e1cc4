use vstd::prelude::*;
use vstd::string::StringExecFns;

verus! {

/// The catalog of transition masks, in the order they are cycled through.
#[derive(Clone, Copy, Debug, PartialEq, Eq, Hash, Structural)]
pub enum Transitioning {
    Bignoise,
    Blobs,
    Checkerboard,
    Circleswipe,
    Cubicnoise,
    Curtainsclose,
    Curtainsopen,
    Diagonalleft,
    Diagonalright,
    Fan,
    Halftone,
    Implode,
    Lines,
    Maze,
    Mosaic,
    Noise,
    Plasma,
    Radialin,
    Radialout,
    Smoke,
    Split,
    Starburst,
    Stripes,
    Swipedown,
    Swipeleft,
    Swiperight,
    Swipeup,
    Swirl,
    Triangles,
    Vortex,
    Waves,
    Zebra,
}

/// Every transition of the catalog, in order.
pub open spec fn all_transitions() -> Seq<Transitioning> {
    seq![Transitioning::Bignoise, Transitioning::Blobs, Transitioning::Checkerboard, Transitioning::Circleswipe, Transitioning::Cubicnoise, Transitioning::Curtainsclose, Transitioning::Curtainsopen, Transitioning::Diagonalleft, Transitioning::Diagonalright, Transitioning::Fan, Transitioning::Halftone, Transitioning::Implode, Transitioning::Lines, Transitioning::Maze, Transitioning::Mosaic, Transitioning::Noise, Transitioning::Plasma, Transitioning::Radialin, Transitioning::Radialout, Transitioning::Smoke, Transitioning::Split, Transitioning::Starburst, Transitioning::Stripes, Transitioning::Swipedown, Transitioning::Swipeleft, Transitioning::Swiperight, Transitioning::Swipeup, Transitioning::Swirl, Transitioning::Triangles, Transitioning::Vortex, Transitioning::Waves, Transitioning::Zebra]
}

impl Default for Transitioning {
    fn default() -> (t: Transitioning)
        ensures
            t == Transitioning::Split,
    {
        Transitioning::Split
    }
}

impl Transitioning {
    pub open spec fn spec_name(&self) -> Seq<char> {
        match self {
            Transitioning::Bignoise => "bignoise"@,
            Transitioning::Blobs => "blobs"@,
            Transitioning::Checkerboard => "checkerboard"@,
            Transitioning::Circleswipe => "circleswipe"@,
            Transitioning::Cubicnoise => "cubicnoise"@,
            Transitioning::Curtainsclose => "curtainsclose"@,
            Transitioning::Curtainsopen => "curtainsopen"@,
            Transitioning::Diagonalleft => "diagonalleft"@,
            Transitioning::Diagonalright => "diagonalright"@,
            Transitioning::Fan => "fan"@,
            Transitioning::Halftone => "halftone"@,
            Transitioning::Implode => "implode"@,
            Transitioning::Lines => "lines"@,
            Transitioning::Maze => "maze"@,
            Transitioning::Mosaic => "mosaic"@,
            Transitioning::Noise => "noise"@,
            Transitioning::Plasma => "plasma"@,
            Transitioning::Radialin => "radialin"@,
            Transitioning::Radialout => "radialout"@,
            Transitioning::Smoke => "smoke"@,
            Transitioning::Split => "split"@,
            Transitioning::Starburst => "starburst"@,
            Transitioning::Stripes => "stripes"@,
            Transitioning::Swipedown => "swipedown"@,
            Transitioning::Swipeleft => "swipeleft"@,
            Transitioning::Swiperight => "swiperight"@,
            Transitioning::Swipeup => "swipeup"@,
            Transitioning::Swirl => "swirl"@,
            Transitioning::Triangles => "triangles"@,
            Transitioning::Vortex => "vortex"@,
            Transitioning::Waves => "waves"@,
            Transitioning::Zebra => "zebra"@,
        }
    }

    /// The name under which the mask is stored and written in a theme.
    pub fn name(&self) -> (s: &'static str)
        ensures
            s@ == self.spec_name(),
    {
        match self {
            Transitioning::Bignoise => "bignoise",
            Transitioning::Blobs => "blobs",
            Transitioning::Checkerboard => "checkerboard",
            Transitioning::Circleswipe => "circleswipe",
            Transitioning::Cubicnoise => "cubicnoise",
            Transitioning::Curtainsclose => "curtainsclose",
            Transitioning::Curtainsopen => "curtainsopen",
            Transitioning::Diagonalleft => "diagonalleft",
            Transitioning::Diagonalright => "diagonalright",
            Transitioning::Fan => "fan",
            Transitioning::Halftone => "halftone",
            Transitioning::Implode => "implode",
            Transitioning::Lines => "lines",
            Transitioning::Maze => "maze",
            Transitioning::Mosaic => "mosaic",
            Transitioning::Noise => "noise",
            Transitioning::Plasma => "plasma",
            Transitioning::Radialin => "radialin",
            Transitioning::Radialout => "radialout",
            Transitioning::Smoke => "smoke",
            Transitioning::Split => "split",
            Transitioning::Starburst => "starburst",
            Transitioning::Stripes => "stripes",
            Transitioning::Swipedown => "swipedown",
            Transitioning::Swipeleft => "swipeleft",
            Transitioning::Swiperight => "swiperight",
            Transitioning::Swipeup => "swipeup",
            Transitioning::Swirl => "swirl",
            Transitioning::Triangles => "triangles",
            Transitioning::Vortex => "vortex",
            Transitioning::Waves => "waves",
            Transitioning::Zebra => "zebra",
        }
    }

    /// Where the mask's image lies, relative to the assets directory.
    pub fn filename(&self) -> (s: String)
        ensures
            s@ == "transitions/"@ + self.spec_name() + ".png"@,
    {
        String::from_str("transitions/").concat(self.name()).concat(".png")
    }

    /// The whole catalog, in order.
    pub fn all() -> (v: Vec<Transitioning>)
        ensures
            v@ == all_transitions(),
    {
        let mut v: Vec<Transitioning> = Vec::new();
    v.push(Transitioning::Bignoise);
    v.push(Transitioning::Blobs);
    v.push(Transitioning::Checkerboard);
    v.push(Transitioning::Circleswipe);
    v.push(Transitioning::Cubicnoise);
    v.push(Transitioning::Curtainsclose);
    v.push(Transitioning::Curtainsopen);
    v.push(Transitioning::Diagonalleft);
    v.push(Transitioning::Diagonalright);
    v.push(Transitioning::Fan);
    v.push(Transitioning::Halftone);
    v.push(Transitioning::Implode);
    v.push(Transitioning::Lines);
    v.push(Transitioning::Maze);
    v.push(Transitioning::Mosaic);
    v.push(Transitioning::Noise);
    v.push(Transitioning::Plasma);
    v.push(Transitioning::Radialin);
    v.push(Transitioning::Radialout);
    v.push(Transitioning::Smoke);
    v.push(Transitioning::Split);
    v.push(Transitioning::Starburst);
    v.push(Transitioning::Stripes);
    v.push(Transitioning::Swipedown);
    v.push(Transitioning::Swipeleft);
    v.push(Transitioning::Swiperight);
    v.push(Transitioning::Swipeup);
    v.push(Transitioning::Swirl);
    v.push(Transitioning::Triangles);
    v.push(Transitioning::Vortex);
    v.push(Transitioning::Waves);
    v.push(Transitioning::Zebra);
        proof {
            assert(v@ =~= all_transitions());
        }
        v
    }
}

} // verus!
