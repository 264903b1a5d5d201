use vstd::prelude::*;

verus! {

/// One filter stage of the equalizer.
///
/// `V` is the scalar type of frequencies (Hz), gains (dB) and Q values.
/// A pass filter's slope is given in dB per octave.
#[derive(Debug, Clone, Copy, PartialEq)]
pub enum EqBand<V> {
    Bell { frequency: V, gain: V, q: V },
    HighShelf { frequency: V, gain: V },
    LowShelf { frequency: V, gain: V },
    HighPass { frequency: V, slope: usize },
    LowPass { frequency: V, slope: usize },
}

/// An edit of one band's parameters.
#[derive(Debug, Clone, Copy, PartialEq)]
pub enum Parameter<V> {
    Frequency(V),
    Gain(V),
    Q(V),
    Slope(usize),
    Active(bool),
}

impl<V> EqBand<V> {
    /// The band's frequency; every kind of band has one.
    pub open spec fn frequency_of(self) -> V {
        match self {
            EqBand::Bell { frequency, .. } => frequency,
            EqBand::HighShelf { frequency, .. } => frequency,
            EqBand::LowShelf { frequency, .. } => frequency,
            EqBand::HighPass { frequency, .. } => frequency,
            EqBand::LowPass { frequency, .. } => frequency,
        }
    }

    /// The band's gain: bells and shelves have one, pass filters do not.
    pub open spec fn gain_of(self) -> Option<V> {
        match self {
            EqBand::Bell { gain, .. } => Some(gain),
            EqBand::HighShelf { gain, .. } => Some(gain),
            EqBand::LowShelf { gain, .. } => Some(gain),
            _ => None,
        }
    }

    /// The band's Q: only a bell has one.
    pub open spec fn q_of(self) -> Option<V> {
        match self {
            EqBand::Bell { q, .. } => Some(q),
            _ => None,
        }
    }

    /// The band's slope: only pass filters have one.
    pub open spec fn slope_of(self) -> Option<usize> {
        match self {
            EqBand::HighPass { slope, .. } => Some(slope),
            EqBand::LowPass { slope, .. } => Some(slope),
            _ => None,
        }
    }
}

impl<V: Copy> EqBand<V> {
    pub fn frequency(&self) -> (r: V)
        ensures
            r == self.frequency_of(),
    {
        match self {
            EqBand::Bell { frequency, .. } => *frequency,
            EqBand::HighShelf { frequency, .. } => *frequency,
            EqBand::LowShelf { frequency, .. } => *frequency,
            EqBand::HighPass { frequency, .. } => *frequency,
            EqBand::LowPass { frequency, .. } => *frequency,
        }
    }
}


impl<V: Copy> EqBand<V> {
    pub fn gain(&self) -> (r: Option<V>)
        ensures
            r == self.gain_of(),
    {
        match self {
            EqBand::Bell { gain, .. } => Some(*gain),
            EqBand::HighShelf { gain, .. } => Some(*gain),
            EqBand::LowShelf { gain, .. } => Some(*gain),
            EqBand::HighPass { .. } => None,
            EqBand::LowPass { .. } => None,
        }
    }

    pub fn q(&self) -> (r: Option<V>)
        ensures
            r == self.q_of(),
    {
        if let EqBand::Bell { q, .. } = self {
            Some(*q)
        } else {
            None
        }
    }
}

/// The band that results from setting one field of `band`, or `None` where
/// the band's kind has no such field. An `Active` edit leaves the band as it
/// is: it concerns the band's entry, not its shape.
pub open spec fn band_with<V>(band: EqBand<V>, change: Parameter<V>) -> Option<EqBand<V>> {
    match (band, change) {
        (EqBand::Bell { gain, q, .. }, Parameter::Frequency(frequency)) => Some(
            EqBand::Bell { frequency, gain, q },
        ),
        (EqBand::HighShelf { gain, .. }, Parameter::Frequency(frequency)) => Some(
            EqBand::HighShelf { frequency, gain },
        ),
        (EqBand::LowShelf { gain, .. }, Parameter::Frequency(frequency)) => Some(
            EqBand::LowShelf { frequency, gain },
        ),
        (EqBand::HighPass { slope, .. }, Parameter::Frequency(frequency)) => Some(
            EqBand::HighPass { frequency, slope },
        ),
        (EqBand::LowPass { slope, .. }, Parameter::Frequency(frequency)) => Some(
            EqBand::LowPass { frequency, slope },
        ),
        (EqBand::Bell { frequency, q, .. }, Parameter::Gain(gain)) => Some(
            EqBand::Bell { frequency, gain, q },
        ),
        (EqBand::HighShelf { frequency, .. }, Parameter::Gain(gain)) => Some(
            EqBand::HighShelf { frequency, gain },
        ),
        (EqBand::LowShelf { frequency, .. }, Parameter::Gain(gain)) => Some(
            EqBand::LowShelf { frequency, gain },
        ),
        (EqBand::Bell { frequency, gain, .. }, Parameter::Q(q)) => Some(
            EqBand::Bell { frequency, gain, q },
        ),
        (EqBand::HighPass { frequency, .. }, Parameter::Slope(slope)) => Some(
            EqBand::HighPass { frequency, slope },
        ),
        (EqBand::LowPass { frequency, .. }, Parameter::Slope(slope)) => Some(
            EqBand::LowPass { frequency, slope },
        ),
        (_, Parameter::Active(_)) => Some(band),
        _ => None,
    }
}

/// The entry `(band, active)` after `change`, or `None` where the change does
/// not apply to the band's kind.
pub open spec fn entry_with<V>(entry: (EqBand<V>, bool), change: Parameter<V>) -> Option<
    (EqBand<V>, bool),
> {
    match change {
        Parameter::Active(active) => Some((entry.0, active)),
        _ => match band_with(entry.0, change) {
            Some(band) => Some((band, entry.1)),
            None => None,
        },
    }
}

/// Applies `change` to one band entry: `None` where the band's kind has no
/// such parameter, else the entry with that one field replaced.
pub fn update_band<V>(band: (EqBand<V>, bool), change: Parameter<V>) -> (r: Option<(EqBand<V>, bool)>)
    ensures
        r == entry_with(band, change),
{
    match (band, change) {
        ((EqBand::Bell { gain, q, .. }, active), Parameter::Frequency(frequency)) => {
            Some((EqBand::Bell { frequency, gain, q }, active))
        },
        ((EqBand::Bell { frequency, q, .. }, active), Parameter::Gain(gain)) => {
            Some((EqBand::Bell { frequency, gain, q }, active))
        },
        ((EqBand::Bell { frequency, gain, .. }, active), Parameter::Q(q)) => {
            Some((EqBand::Bell { frequency, gain, q }, active))
        },
        ((EqBand::HighShelf { gain, .. }, active), Parameter::Frequency(frequency)) => {
            Some((EqBand::HighShelf { frequency, gain }, active))
        },
        ((EqBand::HighShelf { frequency, .. }, active), Parameter::Gain(gain)) => {
            Some((EqBand::HighShelf { frequency, gain }, active))
        },
        ((EqBand::LowShelf { gain, .. }, active), Parameter::Frequency(frequency)) => {
            Some((EqBand::LowShelf { frequency, gain }, active))
        },
        ((EqBand::LowShelf { frequency, .. }, active), Parameter::Gain(gain)) => {
            Some((EqBand::LowShelf { frequency, gain }, active))
        },
        ((EqBand::HighPass { slope, .. }, active), Parameter::Frequency(frequency)) => {
            Some((EqBand::HighPass { frequency, slope }, active))
        },
        ((EqBand::HighPass { frequency, .. }, active), Parameter::Slope(slope)) => {
            Some((EqBand::HighPass { frequency, slope }, active))
        },
        ((EqBand::LowPass { slope, .. }, active), Parameter::Frequency(frequency)) => {
            Some((EqBand::LowPass { frequency, slope }, active))
        },
        ((EqBand::LowPass { frequency, .. }, active), Parameter::Slope(slope)) => {
            Some((EqBand::LowPass { frequency, slope }, active))
        },
        ((band, _), Parameter::Active(active)) => Some((band, active)),
        _ => None,
    }
}

/// A `Q` edit does not apply to a pass filter: the update reports no change.
pub proof fn lemma_q_does_not_apply_to_pass_filters<V>(
    band: EqBand<V>,
    active: bool,
    q: V,
)
    requires
        band is HighPass || band is LowPass,
    ensures
        entry_with((band, active), Parameter::Q(q)) is None,
{
}

/// An `Active` edit applies to every kind of band: it sets the entry's flag
/// and leaves every field of the band as it was.
pub proof fn lemma_active_keeps_fields<V>(band: EqBand<V>, active: bool, flag: bool)
    ensures
        entry_with((band, active), Parameter::Active(flag)) == Some((band, flag)),
        entry_with((band, active), Parameter::Active(flag)).unwrap().0.frequency_of()
            == band.frequency_of(),
        entry_with((band, active), Parameter::Active(flag)).unwrap().0.gain_of() == band.gain_of(),
        entry_with((band, active), Parameter::Active(flag)).unwrap().0.q_of() == band.q_of(),
        entry_with((band, active), Parameter::Active(flag)).unwrap().0.slope_of()
            == band.slope_of(),
{
}

} // verus!
