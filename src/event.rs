//! The sample events that the table lists, and how each field is flagged.
use vstd::prelude::*;

verus! {

/// Seconds in a minute and in an hour.
pub const SECS_PER_MINUTE: u64 = 60;
pub const SECS_PER_HOUR: u64 = 3600;

/// Durations over this many minutes are flagged.
pub const LONG_MINUTES: u64 = 90;

/// Prices over this many cents are flagged.
pub const HIGH_PRICE_CENTS: u32 = 10000;

/// Ratings over this (in hundredths) are praised, those under `LOW_RATING` warned of.
pub const HIGH_RATING: u32 = 470;
pub const LOW_RATING: u32 = 200;

/// One sample event. Prices are in cents and ratings in hundredths of a point.
#[derive(Debug)]
pub struct Event {
    pub name: String,
    pub duration_secs: u64,
    pub price_cents: u32,
    pub rating_hundredths: u32,
}

/// How a value is shown.
#[derive(Clone, Copy, Debug, PartialEq, Eq, Structural)]
pub enum Tone {
    Default,
    Warning,
    Success,
    Danger,
}

pub open spec fn minutes_spec(e: Event) -> int {
    e.duration_secs as int / 60
}

pub open spec fn time_tone_spec(e: Event) -> Tone {
    if minutes_spec(e) > LONG_MINUTES {
        Tone::Warning
    } else {
        Tone::Default
    }
}

pub open spec fn price_tone_spec(e: Event) -> Tone {
    if e.price_cents == 0 {
        Tone::Success
    } else if e.price_cents > HIGH_PRICE_CENTS {
        Tone::Warning
    } else {
        Tone::Default
    }
}

pub open spec fn rating_tone_spec(e: Event) -> Tone {
    if e.rating_hundredths > HIGH_RATING {
        Tone::Success
    } else if e.rating_hundredths < LOW_RATING {
        Tone::Danger
    } else {
        Tone::Default
    }
}

/// Seconds in `n` hours.
pub open spec fn hours(n: int) -> int {
    n * 3600
}

/// Seconds in `n` minutes.
pub open spec fn minutes(n: int) -> int {
    n * 60
}

/// Names of the sample events, in order.
pub open spec fn fixture_names() -> Seq<Seq<char>> {
    seq![
        "Get lost in a hacker bookstore"@,
        "Buy vintage synth at Noisebridge flea market"@,
        "Eat a questionable hot dog at 2AM"@,
        "Ride the MUNI for the story"@,
        "Scream into the void from Twin Peaks"@,
        "Buy overpriced coffee and feel things"@,
        "Attend an underground robot poetry slam"@,
        "Browse cursed tech at a retro computer fair"@,
        "Try to order at a secret ramen place with no sign"@,
        "Join a spontaneous rooftop drone rave"@,
        "Sketch a stranger at Dolores Park"@,
        "Visit the Museum of Obsolete APIs"@,
        "Chase the last working payphone"@,
        "Trade zines with a punk on BART"@,
        "Get a tattoo of the Git logo"@,
    ]
}

/// Duration in seconds, price in cents and rating in hundredths of each sample event.
pub open spec fn fixture_numbers() -> Seq<(int, int, int)> {
    seq![
        (hours(2), 0, 490),
        (hours(1), 15000, 480),
        (minutes(20), 500, 170),
        (minutes(60), 300, 410),
        (minutes(40), 0, 490),
        (minutes(25), 650, 450),
        (hours(1), 1200, 480),
        (hours(2), 1000, 470),
        (minutes(50), 1400, 460),
        (hours(3), 0, 490),
        (minutes(45), 0, 440),
        (hours(1), 999, 420),
        (minutes(35), 25, 400),
        (minutes(30), 350, 470),
        (hours(1), 20000, 460),
    ]
}

/// Whether `e` holds the name and numbers given.
pub open spec fn event_is(e: Event, name: Seq<char>, numbers: (int, int, int)) -> bool {
    e.name@ == name && e.duration_secs == numbers.0 && e.price_cents == numbers.1
        && e.rating_hundredths == numbers.2
}

fn ev(name: &str, duration_secs: u64, price_cents: u32, rating_hundredths: u32) -> (r: Event)
    ensures
        r.name@ == name@,
        r.duration_secs == duration_secs,
        r.price_cents == price_cents,
        r.rating_hundredths == rating_hundredths,
{
    Event { name: name.to_owned(), duration_secs, price_cents, rating_hundredths }
}

impl Event {
    /// The sample events.
    pub fn list() -> (r: Vec<Event>)
        ensures
            r@.len() == fixture_names().len(),
            forall|i: int|
                0 <= i < r@.len() ==> event_is(#[trigger] r@[i], fixture_names()[i], fixture_numbers()[i]),
    {
        let h: u64 = SECS_PER_HOUR;
        let m: u64 = SECS_PER_MINUTE;
        let r = vec![
            ev("Get lost in a hacker bookstore", 2 * h, 0, 490),
            ev("Buy vintage synth at Noisebridge flea market", 1 * h, 15000, 480),
            ev("Eat a questionable hot dog at 2AM", 20 * m, 500, 170),
            ev("Ride the MUNI for the story", 60 * m, 300, 410),
            ev("Scream into the void from Twin Peaks", 40 * m, 0, 490),
            ev("Buy overpriced coffee and feel things", 25 * m, 650, 450),
            ev("Attend an underground robot poetry slam", 1 * h, 1200, 480),
            ev("Browse cursed tech at a retro computer fair", 2 * h, 1000, 470),
            ev("Try to order at a secret ramen place with no sign", 50 * m, 1400, 460),
            ev("Join a spontaneous rooftop drone rave", 3 * h, 0, 490),
            ev("Sketch a stranger at Dolores Park", 45 * m, 0, 440),
            ev("Visit the Museum of Obsolete APIs", 1 * h, 999, 420),
            ev("Chase the last working payphone", 35 * m, 25, 400),
            ev("Trade zines with a punk on BART", 30 * m, 350, 470),
            ev("Get a tattoo of the Git logo", 1 * h, 20000, 460),
        ];
        assert forall|i: int| 0 <= i < r@.len() implies event_is(
            #[trigger] r@[i],
            fixture_names()[i],
            fixture_numbers()[i],
        ) by {}
        r
    }

    /// Whole minutes of the event's duration.
    pub fn minutes(&self) -> (r: u64)
        ensures
            r == minutes_spec(*self),
    {
        self.duration_secs / SECS_PER_MINUTE
    }

    /// How the duration is shown: long ones are flagged.
    pub fn time_tone(&self) -> (r: Tone)
        ensures
            r == time_tone_spec(*self),
    {
        if self.minutes() > LONG_MINUTES {
            Tone::Warning
        } else {
            Tone::Default
        }
    }

    /// How the price is shown: free events stand out, expensive ones are flagged.
    pub fn price_tone(&self) -> (r: Tone)
        ensures
            r == price_tone_spec(*self),
    {
        if self.price_cents == 0 {
            Tone::Success
        } else if self.price_cents > HIGH_PRICE_CENTS {
            Tone::Warning
        } else {
            Tone::Default
        }
    }

    /// How the rating is shown: high ones praised, low ones warned of.
    pub fn rating_tone(&self) -> (r: Tone)
        ensures
            r == rating_tone_spec(*self),
    {
        if self.rating_hundredths > HIGH_RATING {
            Tone::Success
        } else if self.rating_hundredths < LOW_RATING {
            Tone::Danger
        } else {
            Tone::Default
        }
    }
}

} // verus!
