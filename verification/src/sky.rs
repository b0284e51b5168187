//! What the weather part of the display shows of a report: a line of
//! pictographs for sky and weather, and the cloud layers that can be seen
//! from the ground.

use vstd::prelude::*;
use vstd::string::*;

verus! {

/// The state of the sky as a report gives it.
#[derive(Clone, Copy, Debug, PartialEq, Eq, Structural)]
pub enum Clouds {
    SkyClear,
    NoCloudDetected,
    NoSignificantCloud,
    /// There are layers of cloud, given one by one.
    CloudLayers,
}

/// A layer of cloud: how much of the sky it covers, and its height in
/// hundreds of feet where the report gives one.
#[derive(Clone, Copy, Debug, PartialEq, Eq, Structural)]
pub enum CloudLayer {
    Few(Option<u32>),
    Scattered(Option<u32>),
    Broken(Option<u32>),
    Overcast(Option<u32>),
    Unknown(Option<u32>),
}

/// How strong, or how near, a group of weather is.
#[derive(Clone, Copy, Debug, PartialEq, Eq, Structural)]
pub enum WeatherIntensity {
    Light,
    Moderate,
    Heavy,
    InVicinity,
    Recent,
}

/// What a group of weather consists of: descriptors, precipitation,
/// obscuration and the rest.
#[derive(Clone, Copy, Debug, PartialEq, Eq, Structural)]
pub enum WeatherCondition {
    Shallow,
    Partial,
    Patches,
    LowDrifting,
    Blowing,
    Showers,
    Thunderstorm,
    Freezing,
    Rain,
    Drizzle,
    Snow,
    SnowGrains,
    IceCrystals,
    IcePellets,
    Hail,
    SnowPelletsOrSmallHail,
    UnknownPrecipitation,
    Fog,
    VolcanicAsh,
    Mist,
    Haze,
    WidespreadDust,
    Smoke,
    Sand,
    Spray,
    Squall,
    Dust,
    Duststorm,
    Sandstorm,
    FunnelCloud,
}

/// One group of weather in a report: an intensity and what it applies to.
#[derive(Clone, Debug, PartialEq, Eq)]
pub struct Weather {
    pub intensity: WeatherIntensity,
    pub conditions: Vec<WeatherCondition>,
}

/// A layer as it is drawn: the eighths of the sky that it covers, and its
/// height in hundreds of feet.
#[derive(Clone, Copy, Debug, PartialEq, Eq, Structural)]
pub struct DrawnLayer {
    pub eighths: u8,
    pub height: u32,
}

/// Layers from this height on, in hundreds of feet, cannot be seen from
/// the ground and are left out.
pub const HIGHEST_SEEN: u32 = 200;

impl Clouds {
    /// The pictograph of the sky: a sun for a clear one, nothing where
    /// layers are drawn, a question mark where the report does not say.
    pub open spec fn glyph(sky: Option<Clouds>) -> Seq<char> {
        match sky {
            Some(Clouds::CloudLayers) => ""@,
            Some(_) => "\u{263c}"@,
            None => "\u{2753}"@,
        }
    }

    pub fn pictograph(sky: Option<Clouds>) -> (r: &'static str)
        ensures
            r@ == Clouds::glyph(sky),
    {
        match sky {
            Some(Clouds::CloudLayers) => "",
            Some(_) => "\u{263c}",
            None => "\u{2753}",
        }
    }
}

impl WeatherIntensity {
    pub open spec fn glyph(self) -> Seq<char> {
        match self {
            WeatherIntensity::Heavy => "\u{2795}"@,
            WeatherIntensity::Light => "\u{2796}"@,
            WeatherIntensity::Moderate => "\u{3030}"@,
            WeatherIntensity::InVicinity => "\u{1F5FA}"@,
            WeatherIntensity::Recent => "\u{1F5FA}"@,
        }
    }

    pub fn pictograph(self) -> (r: &'static str)
        ensures
            r@ == self.glyph(),
    {
        match self {
            WeatherIntensity::Heavy => "\u{2795}",
            WeatherIntensity::Light => "\u{2796}",
            WeatherIntensity::Moderate => "\u{3030}",
            WeatherIntensity::InVicinity => "\u{1F5FA}",
            WeatherIntensity::Recent => "\u{1F5FA}",
        }
    }
}

impl WeatherCondition {
    pub open spec fn glyph(self) -> Seq<char> {
        match self {
            WeatherCondition::Rain | WeatherCondition::Drizzle | WeatherCondition::Showers
                => "\u{1F327}"@,
            WeatherCondition::Snow | WeatherCondition::SnowGrains => "\u{1F328}"@,
            WeatherCondition::Blowing | WeatherCondition::Squall => "\u{1F32C}"@,
            WeatherCondition::Smoke => "\u{1F32C}\u{1F6AC}"@,
            WeatherCondition::Thunderstorm => "\u{26C8}"@,
            WeatherCondition::Freezing => "\u{1F976}"@,
            WeatherCondition::IceCrystals
            | WeatherCondition::IcePellets
            | WeatherCondition::Hail
            | WeatherCondition::SnowPelletsOrSmallHail => "\u{1F9CA}"@,
            WeatherCondition::Fog | WeatherCondition::Haze => "\u{1F32B}"@,
            WeatherCondition::Mist | WeatherCondition::Spray => "\u{1F32B}\u{1F4A7}"@,
            WeatherCondition::VolcanicAsh => "\u{E08D}"@,
            WeatherCondition::Sand | WeatherCondition::Dust | WeatherCondition::WidespreadDust
                => "\u{1F3DC}"@,
            WeatherCondition::Duststorm
            | WeatherCondition::Sandstorm
            | WeatherCondition::FunnelCloud => "\u{1F32A}"@,
            WeatherCondition::Partial | WeatherCondition::Shallow => "\u{c2}\u{bc}"@,
            WeatherCondition::LowDrifting => "\u{2601}"@,
            WeatherCondition::UnknownPrecipitation | WeatherCondition::Patches => "\u{2753}"@,
        }
    }

    pub fn pictograph(self) -> (r: &'static str)
        ensures
            r@ == self.glyph(),
    {
        match self {
            WeatherCondition::Rain | WeatherCondition::Drizzle | WeatherCondition::Showers
                => "\u{1F327}",
            WeatherCondition::Snow | WeatherCondition::SnowGrains => "\u{1F328}",
            WeatherCondition::Blowing | WeatherCondition::Squall => "\u{1F32C}",
            WeatherCondition::Smoke => "\u{1F32C}\u{1F6AC}",
            WeatherCondition::Thunderstorm => "\u{26C8}",
            WeatherCondition::Freezing => "\u{1F976}",
            WeatherCondition::IceCrystals
            | WeatherCondition::IcePellets
            | WeatherCondition::Hail
            | WeatherCondition::SnowPelletsOrSmallHail => "\u{1F9CA}",
            WeatherCondition::Fog | WeatherCondition::Haze => "\u{1F32B}",
            WeatherCondition::Mist | WeatherCondition::Spray => "\u{1F32B}\u{1F4A7}",
            WeatherCondition::VolcanicAsh => "\u{E08D}",
            WeatherCondition::Sand | WeatherCondition::Dust | WeatherCondition::WidespreadDust
                => "\u{1F3DC}",
            WeatherCondition::Duststorm
            | WeatherCondition::Sandstorm
            | WeatherCondition::FunnelCloud => "\u{1F32A}",
            WeatherCondition::Partial | WeatherCondition::Shallow => "\u{c2}\u{bc}",
            WeatherCondition::LowDrifting => "\u{2601}",
            WeatherCondition::UnknownPrecipitation | WeatherCondition::Patches => "\u{2753}",
        }
    }
}

/// The pictographs of the first `count` conditions, in order.
pub open spec fn condition_glyphs(conditions: Seq<WeatherCondition>, count: int) -> Seq<char>
    decreases count,
{
    if count <= 0 {
        Seq::empty()
    } else {
        condition_glyphs(conditions, count - 1) + conditions[count - 1].glyph()
    }
}

impl Weather {
    /// The pictographs of the group: that of its intensity, then those of
    /// its conditions.
    pub open spec fn glyphs(&self) -> Seq<char> {
        self.intensity.glyph() + condition_glyphs(
            self.conditions@,
            self.conditions@.len() as int,
        )
    }
}

/// The pictographs of the first `count` groups, in order.
pub open spec fn weather_glyphs(weather: Seq<Weather>, count: int) -> Seq<char>
    decreases count,
{
    if count <= 0 {
        Seq::empty()
    } else {
        weather_glyphs(weather, count - 1) + weather[count - 1].glyphs()
    }
}

/// The line of pictographs for a report: the sky, then each group of
/// weather.
pub open spec fn emoji_line(sky: Option<Clouds>, weather: Seq<Weather>) -> Seq<char> {
    Clouds::glyph(sky) + weather_glyphs(weather, weather.len() as int)
}

/// Writes the line of pictographs for a report.
pub fn weather_emojis(sky: Option<Clouds>, weather: &Vec<Weather>) -> (line: String)
    ensures
        line@ == emoji_line(sky, weather@),
{
    let mut line: String = String::from_str(Clouds::pictograph(sky));
    let mut i: usize = 0;
    while i < weather.len()
        invariant
            i <= weather.len(),
            line@ == Clouds::glyph(sky) + weather_glyphs(weather@, i as int),
        decreases weather.len() - i,
    {
        let group: &Weather = &weather[i];
        let ghost before = line@;
        line.append(group.intensity.pictograph());
        let mut j: usize = 0;
        while j < group.conditions.len()
            invariant
                j <= group.conditions.len(),
                line@ == before + group.intensity.glyph() + condition_glyphs(
                    group.conditions@,
                    j as int,
                ),
            decreases group.conditions.len() - j,
        {
            line.append(group.conditions[j].pictograph());
            j = j + 1;
            assert(line@ =~= before + group.intensity.glyph() + condition_glyphs(
                group.conditions@,
                j as int,
            ));
        }
        i = i + 1;
        assert(line@ =~= Clouds::glyph(sky) + weather_glyphs(weather@, i as int));
    }
    line
}

impl CloudLayer {
    /// The layer as it is drawn, if it is: its cover is known, its height is
    /// given and lies below `HIGHEST_SEEN`.
    pub open spec fn drawn(self) -> Option<DrawnLayer> {
        match self {
            CloudLayer::Few(Some(height)) if height < HIGHEST_SEEN => Some(
                DrawnLayer { eighths: 1, height },
            ),
            CloudLayer::Scattered(Some(height)) if height < HIGHEST_SEEN => Some(
                DrawnLayer { eighths: 3, height },
            ),
            CloudLayer::Broken(Some(height)) if height < HIGHEST_SEEN => Some(
                DrawnLayer { eighths: 5, height },
            ),
            CloudLayer::Overcast(Some(height)) if height < HIGHEST_SEEN => Some(
                DrawnLayer { eighths: 7, height },
            ),
            _ => None,
        }
    }

    /// The layer as it is drawn, if it is.
    pub fn as_drawn(self) -> (r: Option<DrawnLayer>)
        ensures
            r == self.drawn(),
    {
        let (eighths, height): (u8, Option<u32>) = match self {
            CloudLayer::Few(height) => (1, height),
            CloudLayer::Scattered(height) => (3, height),
            CloudLayer::Broken(height) => (5, height),
            CloudLayer::Overcast(height) => (7, height),
            CloudLayer::Unknown(_) => {
                return None;
            },
        };
        match height {
            Some(height) => if height < HIGHEST_SEEN {
                Some(DrawnLayer { eighths, height })
            } else {
                None
            },
            None => None,
        }
    }
}

/// Those of the first `count` layers that are drawn, in order.
pub open spec fn drawn_layers(layers: Seq<CloudLayer>, count: int) -> Seq<DrawnLayer>
    decreases count,
{
    if count <= 0 {
        Seq::empty()
    } else {
        match layers[count - 1].drawn() {
            Some(layer) => drawn_layers(layers, count - 1).push(layer),
            None => drawn_layers(layers, count - 1),
        }
    }
}

/// Picks the layers that are drawn.
pub fn visible_layers(layers: &Vec<CloudLayer>) -> (drawn: Vec<DrawnLayer>)
    ensures
        drawn@ == drawn_layers(layers@, layers.len() as int),
{
    let mut drawn: Vec<DrawnLayer> = Vec::new();
    let mut i: usize = 0;
    while i < layers.len()
        invariant
            i <= layers.len(),
            drawn@ == drawn_layers(layers@, i as int),
        decreases layers.len() - i,
    {
        match layers[i].as_drawn() {
            Some(layer) => {
                drawn.push(layer);
            },
            None => {},
        }
        i = i + 1;
    }
    drawn
}

/// The height of the highest of the layers, and 0 where there is none.
pub fn highest(drawn: &Vec<DrawnLayer>) -> (top: u32)
    ensures
        forall|i: int| 0 <= i < drawn.len() ==> drawn[i].height <= top,
        drawn.len() == 0 ==> top == 0,
        drawn.len() > 0 ==> exists|i: int| 0 <= i < drawn.len() && drawn[i].height == top,
{
    let mut top: u32 = 0;
    let mut i: usize = 0;
    while i < drawn.len()
        invariant
            i <= drawn.len(),
            forall|k: int| 0 <= k < i ==> drawn[k].height <= top,
            i == 0 ==> top == 0,
            i > 0 ==> exists|k: int| 0 <= k < i && drawn[k].height == top,
        decreases drawn.len() - i,
    {
        if i == 0 || drawn[i].height >= top {
            top = drawn[i].height;
        }
        i = i + 1;
    }
    top
}

} // verus!
