//! Game-side bookkeeping around the animation core: the click counter that
//! the presentation layer feeds, and the catalog of background images with a
//! random pick.

use vstd::prelude::*;
use rand::Rng;

verus! {

/// How many times the animated sprite has been clicked.
pub struct ClickCounter(pub u32);

impl Default for ClickCounter {
    fn default() -> (c: ClickCounter)
        ensures
            c.0 == 0,
    {
        ClickCounter(0)
    }
}

impl ClickCounter {
    /// Count one more click.
    pub fn record_click(&mut self)
        requires
            old(self).0 < u32::MAX,
        ensures
            final(self).0 == old(self).0 + 1,
    {
        self.0 = self.0 + 1;
    }

    /// The background changes on every fifth click: exactly when the count is
    /// a positive multiple of five.
    pub fn should_change_background(&self) -> (r: bool)
        ensures
            r == (self.0 > 0 && self.0 % 5 == 0),
    {
        self.0 > 0 && self.0 % 5 == 0
    }
}

/// Relies on rand::thread_rng and rand::Rng::gen_range: for a non-empty range
/// `0..len` the call returns a value of the range, that is, below `len`.
/// Nothing more is assumed of the outcome.
#[verifier::external_body]
fn random_index(len: usize) -> (r: usize)
    requires
        len > 0,
    ensures
        r < len,
{
    rand::thread_rng().gen_range(0..len)
}

/// The fixed list of background image paths, with a random pick.
pub struct BackgroundConfig {
    backgrounds: Vec<String>,
}

impl BackgroundConfig {
    /// The configured background paths, in order.
    pub closed spec fn spec_backgrounds(self) -> Seq<String> {
        self.backgrounds@
    }

    /// A valid configuration offers at least one background to pick from.
    pub open spec fn wf(self) -> bool {
        self.spec_backgrounds().len() > 0
    }

    /// One of the configured backgrounds, chosen at random; every call
    /// returns some element of the list, and nothing more is promised of
    /// which.
    pub fn get_random_background(&self) -> (r: &String)
        requires
            self.wf(),
        ensures
            exists|i: int|
                0 <= i < self.spec_backgrounds().len() && *r == self.spec_backgrounds()[i],
    {
        let index = random_index(self.backgrounds.len());
        &self.backgrounds[index]
    }
}

impl Default for BackgroundConfig {
    /// The stock catalog of seven summer backgrounds.
    fn default() -> (c: BackgroundConfig)
        ensures
            c.wf(),
            c.spec_backgrounds().len() == 7,
            c.spec_backgrounds()[0]@ == "backgrounds/summer 2/Summer2.png"@,
            c.spec_backgrounds()[1]@ == "backgrounds/summer 3/Summer3.png"@,
            c.spec_backgrounds()[2]@ == "backgrounds/summer 4/Summer4.png"@,
            c.spec_backgrounds()[3]@ == "backgrounds/summer5/Summer5.png"@,
            c.spec_backgrounds()[4]@ == "backgrounds/summer6/Summer6.png"@,
            c.spec_backgrounds()[5]@ == "backgrounds/summer7/Summer7.png"@,
            c.spec_backgrounds()[6]@ == "backgrounds/summer8/Summer8.png"@,
    {
        let mut backgrounds: Vec<String> = Vec::new();
        backgrounds.push("backgrounds/summer 2/Summer2.png".to_owned());
        backgrounds.push("backgrounds/summer 3/Summer3.png".to_owned());
        backgrounds.push("backgrounds/summer 4/Summer4.png".to_owned());
        backgrounds.push("backgrounds/summer5/Summer5.png".to_owned());
        backgrounds.push("backgrounds/summer6/Summer6.png".to_owned());
        backgrounds.push("backgrounds/summer7/Summer7.png".to_owned());
        backgrounds.push("backgrounds/summer8/Summer8.png".to_owned());
        BackgroundConfig { backgrounds }
    }
}

} // verus!
