//! Logical and physical pixels, and the way between them.
//!
//! A physical pixel is a pixel of the device. A logical pixel is a unit of
//! the user interface; a monitor's scale factor says how many physical pixels
//! make one logical pixel. Logical measures are carried in steps of 1/65536,
//! so that every rule about them is a rule about integers.

use vstd::prelude::*;

verus! {

/// The number of steps that make one logical unit.
pub const LOGICAL_UNIT: i64 = 65536;

/// A logical measure or a scale factor: `Finite(raw)` stands for the number
/// `raw / 65536`; the other three stand for what is no number.
#[derive(Debug, Clone, Copy, PartialEq, Eq, Structural)]
pub enum Logical {
    Finite(i64),
    PositiveInfinity,
    NegativeInfinity,
    NotANumber,
}

/// `n / d` rounded to the nearest integer, a tie away from zero.
pub open spec fn round_ratio(n: int, d: int) -> int
    recommends
        d > 0,
{
    if n >= 0 {
        (2 * n + d) / (2 * d)
    } else {
        -((2 * (-n) + d) / (2 * d))
    }
}

/// `v` brought into the range of `i32`.
pub open spec fn saturate_i32(v: int) -> int {
    if v < i32::MIN {
        i32::MIN as int
    } else if v > i32::MAX {
        i32::MAX as int
    } else {
        v
    }
}

/// `v` brought into the range of `i64`.
pub open spec fn saturate_i64(v: int) -> int {
    if v < i64::MIN {
        i64::MIN as int
    } else if v > i64::MAX {
        i64::MAX as int
    } else {
        v
    }
}

/// `v` brought into `[low, high]`; `low` where the range is empty.
pub open spec fn clamp_between(v: int, low: int, high: int) -> int {
    if v < low || high < low {
        low
    } else if v > high {
        high
    } else {
        v
    }
}

impl Logical {
    /// Whether the value is a number greater than 0.
    pub open spec fn is_positive_finite(self) -> bool {
        self matches Logical::Finite(raw) && raw > 0
    }

    /// -1, 0 or 1 as the value is below, at or above 0; 0 for what is no
    /// number at all.
    pub open spec fn sign(self) -> int {
        match self {
            Logical::Finite(raw) => if raw > 0 {
                1
            } else if raw < 0 {
                -1
            } else {
                0
            },
            Logical::PositiveInfinity => 1,
            Logical::NegativeInfinity => -1,
            Logical::NotANumber => 0,
        }
    }

    /// The greater of the value and 0; 0 for what is no number at all.
    pub open spec fn or_zero(self) -> Logical {
        match self {
            Logical::Finite(raw) => if raw > 0 {
                self
            } else {
                Logical::Finite(0)
            },
            Logical::PositiveInfinity => self,
            Logical::NegativeInfinity => Logical::Finite(0),
            Logical::NotANumber => Logical::Finite(0),
        }
    }

    /// The product of the value and `scale`, rounded to whole pixels, a tie
    /// away from zero, and brought into the range of `i32`. A product that is
    /// no number at all gives 0.
    pub open spec fn scaled_by(self, scale: Logical) -> int {
        match (self, scale) {
            (Logical::NotANumber, _) => 0,
            (_, Logical::NotANumber) => 0,
            (Logical::Finite(a), Logical::Finite(b)) => saturate_i32(
                round_ratio(a * b, LOGICAL_UNIT * LOGICAL_UNIT),
            ),
            _ => if self.sign() * scale.sign() > 0 {
                i32::MAX as int
            } else if self.sign() * scale.sign() < 0 {
                i32::MIN as int
            } else {
                0
            },
        }
    }

    /// The scale to work with: the one asked for where it is a number greater
    /// than 0, else the monitor's.
    pub open spec fn scale_or(self, monitor_scale: Logical) -> Logical {
        if self.is_positive_finite() {
            self
        } else {
            monitor_scale
        }
    }

    /// The greater of the value and 0.
    pub fn at_least_zero(self) -> (value: Logical)
        ensures
            value == self.or_zero(),
    {
        match self {
            Logical::Finite(raw) => if raw > 0 {
                self
            } else {
                Logical::Finite(0)
            },
            Logical::PositiveInfinity => self,
            Logical::NegativeInfinity => Logical::Finite(0),
            Logical::NotANumber => Logical::Finite(0),
        }
    }

    fn signum(self) -> (s: i8)
        ensures
            s == self.sign(),
    {
        match self {
            Logical::Finite(raw) => if raw > 0 {
                1
            } else if raw < 0 {
                -1
            } else {
                0
            },
            Logical::PositiveInfinity => 1,
            Logical::NegativeInfinity => -1,
            Logical::NotANumber => 0,
        }
    }

    /// The value times `scale`, in whole physical pixels.
    pub fn scale(self, scale: Logical) -> (pixels: i32)
        ensures
            pixels == self.scaled_by(scale),
    {
        match (self, scale) {
            (Logical::NotANumber, _) => 0,
            (_, Logical::NotANumber) => 0,
            (Logical::Finite(a), Logical::Finite(b)) => round_product(a, b),
            _ => {
                let sign: i8 = self.signum() * scale.signum();
                if sign > 0 {
                    i32::MAX
                } else if sign < 0 {
                    i32::MIN
                } else {
                    0
                }
            },
        }
    }

    /// The scale to work with, given the monitor's.
    pub fn effective_scale(self, monitor_scale: Logical) -> (scale: Logical)
        ensures
            scale == self.scale_or(monitor_scale),
    {
        match self {
            Logical::Finite(raw) => if raw > 0 {
                self
            } else {
                monitor_scale
            },
            _ => monitor_scale,
        }
    }
}

/// A point of the screen, in physical pixels.
#[derive(Debug, Clone, Copy, PartialEq, Eq, Structural)]
pub struct PhysicalPosition {
    pub x: i32,
    pub y: i32,
}

/// A width and a height, in physical pixels.
#[derive(Debug, Clone, Copy, PartialEq, Eq, Structural)]
pub struct PhysicalSize {
    pub width: u32,
    pub height: u32,
}

/// A rectangle of the screen, in physical pixels.
#[derive(Debug, Clone, Copy, PartialEq, Eq, Structural)]
pub struct PhysicalCaptureRect {
    pub x: i32,
    pub y: i32,
    pub width: u32,
    pub height: u32,
}

/// What is known of a monitor: where it lies among the physical pixels, how
/// large it is, and its scale factor.
pub struct MonitorView {
    pub position: PhysicalPosition,
    pub size: PhysicalSize,
    pub scale_factor: Logical,
}

impl MonitorView {
    /// A monitor has at least one pixel each way, and its last pixel has
    /// coordinates that fit in `i32`.
    pub open spec fn well_formed(self) -> bool {
        &&& self.size.width >= 1
        &&& self.size.height >= 1
        &&& self.position.x + self.size.width <= i32::MAX
        &&& self.position.y + self.size.height <= i32::MAX
    }

    /// The monitor's width, as far as offsets within it can count.
    pub open spec fn extent_x(self) -> int {
        if self.size.width > i32::MAX {
            i32::MAX as int
        } else {
            self.size.width as int
        }
    }

    /// The monitor's height, as far as offsets within it can count.
    pub open spec fn extent_y(self) -> int {
        if self.size.height > i32::MAX {
            i32::MAX as int
        } else {
            self.size.height as int
        }
    }

    /// The scale by which physical pixels are turned into logical ones: the
    /// monitor's where that is a number greater than 0, else 1.
    pub open spec fn unit_scale(self) -> int {
        match self.scale_factor {
            Logical::Finite(raw) => if raw > 0 {
                raw as int
            } else {
                LOGICAL_UNIT as int
            },
            _ => LOGICAL_UNIT as int,
        }
    }

    /// Whether the rectangle has pixels and all of them lie on the monitor.
    pub open spec fn contains(self, rect: PhysicalCaptureRect) -> bool {
        &&& rect.width >= 1
        &&& rect.height >= 1
        &&& self.position.x <= rect.x
        &&& self.position.y <= rect.y
        &&& rect.x + rect.width <= self.position.x + self.size.width
        &&& rect.y + rect.height <= self.position.y + self.size.height
    }
}

/// A monitor as the operating system describes it at one moment.
#[derive(Debug, Clone, Copy)]
pub struct MonitorDescriptor {
    position: PhysicalPosition,
    size: PhysicalSize,
    scale_factor: Logical,
}

impl View for MonitorDescriptor {
    type V = MonitorView;

    closed spec fn view(&self) -> MonitorView {
        MonitorView { position: self.position, size: self.size, scale_factor: self.scale_factor }
    }
}

impl MonitorDescriptor {
    #[verifier::type_invariant]
    spec fn well_formed(self) -> bool {
        self@.well_formed()
    }

    /// Describes a monitor; `None` where it has no pixel or reaches beyond
    /// the coordinates that `i32` can hold.
    pub fn new(position: PhysicalPosition, size: PhysicalSize, scale_factor: Logical) -> (monitor:
        Option<Self>)
        ensures
            (MonitorView { position, size, scale_factor }).well_formed() <==> monitor is Some,
            monitor matches Some(m) ==> m@ == (MonitorView { position, size, scale_factor }),
    {
        if size.width >= 1 && size.height >= 1 && position.x as i64 + size.width as i64
            <= i32::MAX as i64 && position.y as i64 + size.height as i64 <= i32::MAX as i64 {
            Some(MonitorDescriptor { position, size, scale_factor })
        } else {
            None
        }
    }

    /// Where the monitor's first pixel lies.
    pub fn position(&self) -> (position: PhysicalPosition)
        ensures
            position == self@.position,
            self@.well_formed(),
    {
        proof {
            use_type_invariant(self);
        }
        self.position
    }

    /// How many pixels the monitor has each way.
    pub fn size(&self) -> (size: PhysicalSize)
        ensures
            size == self@.size,
            self@.well_formed(),
    {
        proof {
            use_type_invariant(self);
        }
        self.size
    }

    /// How many physical pixels make one logical pixel.
    pub fn scale_factor(&self) -> (scale_factor: Logical)
        ensures
            scale_factor == self@.scale_factor,
    {
        self.scale_factor
    }

    /// The whole of the monitor.
    pub fn bounds(&self) -> (rect: PhysicalCaptureRect)
        ensures
            rect == (PhysicalCaptureRect {
                x: self@.position.x,
                y: self@.position.y,
                width: self@.size.width,
                height: self@.size.height,
            }),
            self@.contains(rect),
    {
        proof {
            use_type_invariant(self);
        }
        PhysicalCaptureRect {
            x: self.position.x,
            y: self.position.y,
            width: self.size.width,
            height: self.size.height,
        }
    }
}

proof fn lemma_product_bounds(a: int, b: int)
    by (nonlinear_arith)
    requires
        -0x8000_0000_0000_0000 <= a <= 0x7fff_ffff_ffff_ffff,
        -0x8000_0000_0000_0000 <= b <= 0x7fff_ffff_ffff_ffff,
    ensures
        -0x4000_0000_0000_0000_0000_0000_0000_0000 <= a * b
            <= 0x4000_0000_0000_0000_0000_0000_0000_0000,
{
}

/// `a * b / 2^32`, rounded and brought into the range of `i32`.
fn round_product(a: i64, b: i64) -> (pixels: i32)
    ensures
        pixels == saturate_i32(round_ratio(a * b, LOGICAL_UNIT * LOGICAL_UNIT)),
{
    proof {
        lemma_product_bounds(a as int, b as int);
    }
    let product: i128 = (a as i128) * (b as i128);
    let half: i128 = 0x8000_0000;
    let whole: i128 = 0x1_0000_0000;
    let rounded: i128 = if product >= 0 {
        (product + half) / whole
    } else {
        -((-product + half) / whole)
    };
    if rounded < i32::MIN as i128 {
        i32::MIN
    } else if rounded > i32::MAX as i128 {
        i32::MAX
    } else {
        rounded as i32
    }
}

} // verus!
