//! The string parameter interface: fully qualified parameter names,
//! built and validated per variant.
//!
//! Every parameter object carries the exact name the engine's
//! parameter calls expect. The calls themselves are performed by the
//! embedding program; the status codes they return are interpreted by
//! [`get_parameters`] and [`set_parameters`].

use vstd::prelude::*;

pub mod bus;
pub mod eq;
pub mod errors;
pub mod fx;
pub mod get_parameters;
pub mod option;
pub mod recorder;
pub mod set_parameters;
pub mod strip;
pub mod vban;

use crate::decimal::{i32_decimal, spec_decimal};
use crate::interface::VoicemeeterRemote;
use crate::parameters::errors::{
    DeviceError, InvalidTypeError, InvalidVoicemeeterVersion, OutOfRangeError, ParameterError,
};
use crate::parameters::bus::Bus;
use crate::parameters::fx::VoicemeeterFx;
use crate::parameters::option::VoicemeeterOption;
use crate::parameters::recorder::VoicemeeterRecorder;
use crate::parameters::strip::Strip;
use crate::parameters::vban::VoicemeeterVban;
use crate::types::{Device, VoicemeeterApplication, ZIndex};

verus! {

/// A fully qualified Voicemeeter parameter name.
#[derive(Debug, Clone, PartialEq, Eq)]
pub struct ParameterName(pub String);

impl View for ParameterName {
    type V = Seq<char>;

    open spec fn view(&self) -> Seq<char> {
        self.0@
    }
}

impl ParameterName {
    /// The name as a string slice.
    pub fn as_str(&self) -> (r: &str)
        ensures
            r@ == self@,
    {
        self.0.as_str()
    }
}

/// The name of a parameter under an indexed base:
/// `{base}[{index}].{dot}`.
pub open spec fn spec_indexed_param(base: Seq<char>, index: int, dot: Seq<char>) -> Seq<char> {
    base + "["@ + spec_decimal(index) + "]."@ + dot
}

/// The name of a parameter under a plain base: `{base}.{dot}`.
pub open spec fn spec_plain_param(base: Seq<char>, dot: Seq<char>) -> Seq<char> {
    base + "."@ + dot
}

/// Build the name of a parameter under an indexed base.
pub fn indexed_param(base: &str, index: ZIndex, dot: &str) -> (r: ParameterName)
    ensures
        r@ == spec_indexed_param(base@, index.0 as int, dot@),
{
    let mut s = String::from_str(base);
    s.append("[");
    let digits = i32_decimal(index.0);
    s.append(digits.as_str());
    s.append("].");
    s.append(dot);
    ParameterName(s)
}

/// Build the name of a parameter under a plain base.
pub fn plain_param(base: &str, dot: &str) -> (r: ParameterName)
    ensures
        r@ == spec_plain_param(base@, dot@),
{
    let mut s = String::from_str(base);
    s.append(".");
    s.append(dot);
    ParameterName(s)
}

/// A float-valued parameter. Reading and writing its value goes
/// through the engine's float parameter calls, outside this crate.
pub struct FloatParameter<'a, const WRITE: bool, const READ: bool> {
    /// The name of the parameter, fully qualified.
    pub name: ParameterName,
    /// The session the parameter belongs to.
    pub remote: &'a VoicemeeterRemote,
}

impl<'a, const WRITE: bool, const READ: bool> FloatParameter<'a, WRITE, READ> {
    /// Bind a parameter name to a session.
    pub fn new(name: ParameterName, remote: &'a VoicemeeterRemote) -> (r: Self)
        ensures
            r.name == name,
            r.remote == remote,
    {
        Self { name, remote }
    }
}

/// A string-valued parameter.
pub struct StringParameter<'a, const WRITE: bool, const READ: bool> {
    /// The name of the parameter, fully qualified.
    pub name: ParameterName,
    /// The session the parameter belongs to.
    pub remote: &'a VoicemeeterRemote,
}

impl<'a, const WRITE: bool, const READ: bool> StringParameter<'a, WRITE, READ> {
    /// Bind a parameter name to a session.
    pub fn new(name: ParameterName, remote: &'a VoicemeeterRemote) -> (r: Self)
        ensures
            r.name == name,
            r.remote == remote,
    {
        Self { name, remote }
    }
}

/// A parameter set from a pair of values.
pub struct TupleParameter<'a, A, B, const WRITE: bool, const READ: bool> {
    /// The name of the parameter, fully qualified.
    pub name: ParameterName,
    /// The session the parameter belongs to.
    pub remote: &'a VoicemeeterRemote,
    /// The pair of value types this parameter takes.
    pub marker: core::marker::PhantomData<(A, B)>,
}

impl<'a, A, B, const WRITE: bool, const READ: bool> TupleParameter<'a, A, B, WRITE, READ> {
    /// Bind a parameter name to a session.
    pub fn new(name: ParameterName, remote: &'a VoicemeeterRemote) -> (r: Self)
        ensures
            r.name == name,
            r.remote == remote,
    {
        Self { name, remote, marker: core::marker::PhantomData }
    }
}

/// A boolean parameter, carried by the engine as a float that is one
/// when set.
pub struct BoolParameter<'a, const WRITE: bool, const READ: bool> {
    /// The name of the parameter, fully qualified.
    pub name: ParameterName,
    /// The session the parameter belongs to.
    pub remote: &'a VoicemeeterRemote,
}

impl<'a, const WRITE: bool, const READ: bool> BoolParameter<'a, WRITE, READ> {
    /// Bind a parameter name to a session.
    pub fn new(name: ParameterName, remote: &'a VoicemeeterRemote) -> (r: Self)
        ensures
            r.name == name,
            r.remote == remote,
    {
        Self { name, remote }
    }
}

/// An integer parameter, carried by the engine as a float.
pub struct IntParameter<'a, const WRITE: bool, const READ: bool> {
    /// The name of the parameter, fully qualified.
    pub name: ParameterName,
    /// The session the parameter belongs to.
    pub remote: &'a VoicemeeterRemote,
    /// The documented range of the parameter, inclusive on both ends,
    /// where one is documented.
    pub range: Option<(i32, i32)>,
}

impl<'a, const WRITE: bool, const READ: bool> IntParameter<'a, WRITE, READ> {
    /// Bind a parameter name to a session, with its documented range.
    pub fn new(name: ParameterName, remote: &'a VoicemeeterRemote, lo: i32, hi: i32) -> (r: Self)
        ensures
            r.name == name,
            r.remote == remote,
            r.range == Some((lo, hi)),
    {
        Self { name, remote, range: Some((lo, hi)) }
    }

    /// Bind a parameter name to a session, without a documented
    /// range.
    pub fn new_unranged(name: ParameterName, remote: &'a VoicemeeterRemote) -> (r: Self)
        ensures
            r.name == name,
            r.remote == remote,
            r.range is None,
    {
        Self { name, remote, range: None }
    }
}

/// Whether a strip index is valid for the given program.
pub open spec fn strip_in_range(program: VoicemeeterApplication, i: int) -> bool {
    match program {
        VoicemeeterApplication::Voicemeeter => 0 <= i <= 2,
        VoicemeeterApplication::VoicemeeterBanana => 0 <= i <= 4,
        VoicemeeterApplication::VoicemeeterPotato => 0 <= i <= 7,
        VoicemeeterApplication::PotatoX64Bits => 0 <= i <= 7,
        _ => false,
    }
}

/// Whether a bus index is valid for the given program.
pub open spec fn bus_in_range(program: VoicemeeterApplication, i: int) -> bool {
    match program {
        VoicemeeterApplication::Voicemeeter => 0 <= i <= 2,
        VoicemeeterApplication::VoicemeeterBanana => 0 <= i <= 4,
        VoicemeeterApplication::VoicemeeterPotato => 0 <= i <= 7,
        VoicemeeterApplication::PotatoX64Bits => 0 <= i <= 7,
        _ => false,
    }
}

/// Strip index helper: anything that names a strip.
pub trait StripIndex: Sized {
    /// The strip index this value stands for, or the error that
    /// rejects it.
    spec fn strip_index_spec(self, program: VoicemeeterApplication) -> Result<
        ZIndex,
        ParameterError,
    >;

    /// Get the strip index.
    fn into_strip_index(self, program: &VoicemeeterApplication) -> (r: Result<
        ZIndex,
        ParameterError,
    >)
        ensures
            r == self.strip_index_spec(*program),
    ;
}

impl StripIndex for i32 {
    open spec fn strip_index_spec(self, program: VoicemeeterApplication) -> Result<
        ZIndex,
        ParameterError,
    > {
        Ok(ZIndex(self))
    }

    fn into_strip_index(self, program: &VoicemeeterApplication) -> (r: Result<
        ZIndex,
        ParameterError,
    >) {
        Ok(ZIndex(self))
    }
}

impl StripIndex for usize {
    open spec fn strip_index_spec(self, program: VoicemeeterApplication) -> Result<
        ZIndex,
        ParameterError,
    > {
        Ok(ZIndex(self as i32))
    }

    fn into_strip_index(self, program: &VoicemeeterApplication) -> (r: Result<
        ZIndex,
        ParameterError,
    >) {
        Ok(ZIndex(#[verifier::truncate] (self as i32)))
    }
}

impl StripIndex for ZIndex {
    open spec fn strip_index_spec(self, program: VoicemeeterApplication) -> Result<
        ZIndex,
        ParameterError,
    > {
        Ok(self)
    }

    fn into_strip_index(self, program: &VoicemeeterApplication) -> (r: Result<
        ZIndex,
        ParameterError,
    >) {
        Ok(self)
    }
}

impl StripIndex for Device {
    open spec fn strip_index_spec(self, program: VoicemeeterApplication) -> Result<
        ZIndex,
        ParameterError,
    > {
        if !self.spec_is_strip() {
            Err(ParameterError::Type(InvalidTypeError::ExpectedStrip { device: self }))
        } else {
            match self.spec_strip_index(program) {
                Some(z) => Ok(z),
                None => Err(ParameterError::Device(DeviceError { program, device: self })),
            }
        }
    }

    fn into_strip_index(self, program: &VoicemeeterApplication) -> (r: Result<
        ZIndex,
        ParameterError,
    >) {
        if !self.is_strip() {
            return Err(ParameterError::Type(InvalidTypeError::ExpectedStrip { device: self }));
        }
        match self.as_strip_index(program) {
            Some(z) => Ok(z),
            None => Err(ParameterError::Device(DeviceError { program: *program, device: self })),
        }
    }
}

/// Bus index helper: anything that names a bus.
pub trait BusIndex: Sized {
    /// The bus index this value stands for, or the error that rejects
    /// it.
    spec fn bus_index_spec(self, program: VoicemeeterApplication) -> Result<
        ZIndex,
        ParameterError,
    >;

    /// Get the bus index.
    fn into_bus_index(self, program: &VoicemeeterApplication) -> (r: Result<
        ZIndex,
        ParameterError,
    >)
        ensures
            r == self.bus_index_spec(*program),
    ;
}

impl BusIndex for i32 {
    open spec fn bus_index_spec(self, program: VoicemeeterApplication) -> Result<
        ZIndex,
        ParameterError,
    > {
        Ok(ZIndex(self))
    }

    fn into_bus_index(self, program: &VoicemeeterApplication) -> (r: Result<
        ZIndex,
        ParameterError,
    >) {
        Ok(ZIndex(self))
    }
}

impl BusIndex for usize {
    open spec fn bus_index_spec(self, program: VoicemeeterApplication) -> Result<
        ZIndex,
        ParameterError,
    > {
        Ok(ZIndex(self as i32))
    }

    fn into_bus_index(self, program: &VoicemeeterApplication) -> (r: Result<
        ZIndex,
        ParameterError,
    >) {
        Ok(ZIndex(#[verifier::truncate] (self as i32)))
    }
}

impl BusIndex for ZIndex {
    open spec fn bus_index_spec(self, program: VoicemeeterApplication) -> Result<
        ZIndex,
        ParameterError,
    > {
        Ok(self)
    }

    fn into_bus_index(self, program: &VoicemeeterApplication) -> (r: Result<
        ZIndex,
        ParameterError,
    >) {
        Ok(self)
    }
}

impl BusIndex for Device {
    open spec fn bus_index_spec(self, program: VoicemeeterApplication) -> Result<
        ZIndex,
        ParameterError,
    > {
        if !self.spec_is_bus() {
            Err(ParameterError::Type(InvalidTypeError::ExpectedBus { device: self }))
        } else {
            match self.spec_bus_index(program) {
                Some(z) => Ok(z),
                None => Err(ParameterError::Device(DeviceError { program, device: self })),
            }
        }
    }

    fn into_bus_index(self, program: &VoicemeeterApplication) -> (r: Result<
        ZIndex,
        ParameterError,
    >) {
        if !self.is_bus() {
            return Err(ParameterError::Type(InvalidTypeError::ExpectedBus { device: self }));
        }
        match self.as_bus_index(program) {
            Some(z) => Ok(z),
            None => Err(ParameterError::Device(DeviceError { program: *program, device: self })),
        }
    }
}

/// Parameter abstraction: entry point to every parameter of the
/// application.
pub struct Parameters<'a> {
    /// The session the parameters belong to.
    pub remote: &'a VoicemeeterRemote,
}

impl VoicemeeterRemote {
    /// Get access to the [parameters](Parameters) of the application.
    pub fn parameters(&self) -> (r: Parameters<'_>)
        ensures
            r.remote == self,
    {
        Parameters { remote: self }
    }
}

impl<'a> Parameters<'a> {
    /// Parameters of a [strip](Strip): an input, physical or virtual.
    /// Rejects indexes that do not exist on the running program.
    pub fn strip<I: StripIndex>(&self, index: I) -> (r: Result<Strip<'a>, ParameterError>)
        ensures
            index.strip_index_spec(self.remote.program) matches Err(e) ==> r == Err::<
                Strip<'a>,
                _,
            >(e),
            index.strip_index_spec(self.remote.program) matches Ok(z) ==> (if strip_in_range(
                self.remote.program,
                z.0 as int,
            ) {
                r matches Ok(s) && s.remote == self.remote && s.strip_index == z
            } else {
                r matches Err(e) && e matches ParameterError::OutOfRange(o) && o.name@ == "Strip"@
                    && o.index == z && o.program == self.remote.program
            }),
    {
        let index = match index.into_strip_index(&self.remote.program) {
            Ok(z) => z,
            Err(e) => {
                return Err(e);
            },
        };
        let in_range = match self.remote.program {
            VoicemeeterApplication::Voicemeeter => 0 <= index.0 && index.0 <= 2,
            VoicemeeterApplication::VoicemeeterBanana => 0 <= index.0 && index.0 <= 4,
            VoicemeeterApplication::VoicemeeterPotato => 0 <= index.0 && index.0 <= 7,
            VoicemeeterApplication::PotatoX64Bits => 0 <= index.0 && index.0 <= 7,
            _ => false,
        };
        if in_range {
            Ok(Strip::new(self.remote, index))
        } else {
            Err(
                ParameterError::OutOfRange(
                    OutOfRangeError {
                        name: String::from_str("Strip"),
                        index,
                        program: self.remote.program,
                    },
                ),
            )
        }
    }

    /// Parameters of a [bus](Bus): an output. Rejects indexes that do
    /// not exist on the running program.
    pub fn bus<I: BusIndex>(&self, index: I) -> (r: Result<Bus<'a>, ParameterError>)
        ensures
            index.bus_index_spec(self.remote.program) matches Err(e) ==> r == Err::<Bus<'a>, _>(e),
            index.bus_index_spec(self.remote.program) matches Ok(z) ==> (if bus_in_range(
                self.remote.program,
                z.0 as int,
            ) {
                r matches Ok(b) && b.remote == self.remote && b.bus_index == z
            } else {
                r matches Err(e) && e matches ParameterError::OutOfRange(o) && o.name@ == "Bus"@
                    && o.index == z && o.program == self.remote.program
            }),
    {
        let index = match index.into_bus_index(&self.remote.program) {
            Ok(z) => z,
            Err(e) => {
                return Err(e);
            },
        };
        let in_range = match self.remote.program {
            VoicemeeterApplication::Voicemeeter => 0 <= index.0 && index.0 <= 2,
            VoicemeeterApplication::VoicemeeterBanana => 0 <= index.0 && index.0 <= 4,
            VoicemeeterApplication::VoicemeeterPotato => 0 <= index.0 && index.0 <= 7,
            VoicemeeterApplication::PotatoX64Bits => 0 <= index.0 && index.0 <= 7,
            _ => false,
        };
        if in_range {
            Ok(Bus::new(self.remote, index))
        } else {
            Err(
                ParameterError::OutOfRange(
                    OutOfRangeError {
                        name: String::from_str("Bus"),
                        index,
                        program: self.remote.program,
                    },
                ),
            )
        }
    }

    /// Options for Voicemeeter.
    pub fn option(&self) -> (r: VoicemeeterOption<'a>)
        ensures
            r.remote == self.remote,
    {
        VoicemeeterOption::new(self.remote)
    }

    /// The Voicemeeter recorder with playback, available on Banana
    /// and Potato.
    pub fn recorder(&self) -> (r: Result<VoicemeeterRecorder<'a>, ParameterError>)
        ensures
            recorder_available(self.remote.program) ==> (r matches Ok(rec) && rec.remote
                == self.remote),
            !recorder_available(self.remote.program) ==> (r matches Err(e) && e matches
                ParameterError::Version(v) && v.found == self.remote.program && v.parameter@
                == "Recorder"@ && v.expected@ == seq![
                VoicemeeterApplication::VoicemeeterBanana,
                VoicemeeterApplication::VoicemeeterPotato,
                VoicemeeterApplication::PotatoX64Bits,
            ]),
    {
        let valid = match self.remote.program {
            VoicemeeterApplication::VoicemeeterBanana => true,
            VoicemeeterApplication::VoicemeeterPotato => true,
            VoicemeeterApplication::PotatoX64Bits => true,
            _ => false,
        };
        if !valid {
            let expected = vec![
                VoicemeeterApplication::VoicemeeterBanana,
                VoicemeeterApplication::VoicemeeterPotato,
                VoicemeeterApplication::PotatoX64Bits,
            ];
            proof {
                assert(expected@ =~= seq![
                    VoicemeeterApplication::VoicemeeterBanana,
                    VoicemeeterApplication::VoicemeeterPotato,
                    VoicemeeterApplication::PotatoX64Bits,
                ]);
            }
            Err(
                ParameterError::Version(
                    InvalidVoicemeeterVersion {
                        expected,
                        found: self.remote.program,
                        parameter: String::from_str("Recorder"),
                    },
                ),
            )
        } else {
            Ok(VoicemeeterRecorder::new(self.remote))
        }
    }

    /// The Voicemeeter FX section, available on Potato.
    pub fn fx(&self) -> (r: Result<VoicemeeterFx<'a>, ParameterError>)
        ensures
            fx_available(self.remote.program) ==> (r matches Ok(f) && f.remote == self.remote),
            !fx_available(self.remote.program) ==> (r matches Err(e) && e matches
                ParameterError::Version(v) && v.found == self.remote.program && v.parameter@
                == "Recorder"@ && v.expected@ == seq![
                VoicemeeterApplication::VoicemeeterPotato,
                VoicemeeterApplication::PotatoX64Bits,
            ]),
    {
        let valid = match self.remote.program {
            VoicemeeterApplication::VoicemeeterPotato => true,
            VoicemeeterApplication::PotatoX64Bits => true,
            _ => false,
        };
        if !valid {
            let expected = vec![
                VoicemeeterApplication::VoicemeeterPotato,
                VoicemeeterApplication::PotatoX64Bits,
            ];
            proof {
                assert(expected@ =~= seq![
                    VoicemeeterApplication::VoicemeeterPotato,
                    VoicemeeterApplication::PotatoX64Bits,
                ]);
            }
            Err(
                ParameterError::Version(
                    InvalidVoicemeeterVersion {
                        expected,
                        found: self.remote.program,
                        parameter: String::from_str("Recorder"),
                    },
                ),
            )
        } else {
            Ok(VoicemeeterFx::new(self.remote))
        }
    }

    /// Voicemeeter VBAN.
    pub fn vban(&self) -> (r: VoicemeeterVban<'a>)
        ensures
            r.remote == self.remote,
    {
        VoicemeeterVban::new(self.remote)
    }
}

/// Whether the recorder exists on the given program.
pub open spec fn recorder_available(program: VoicemeeterApplication) -> bool {
    match program {
        VoicemeeterApplication::VoicemeeterBanana
        | VoicemeeterApplication::VoicemeeterPotato
        | VoicemeeterApplication::PotatoX64Bits => true,
        _ => false,
    }
}

/// Whether the FX section exists on the given program.
pub open spec fn fx_available(program: VoicemeeterApplication) -> bool {
    match program {
        VoicemeeterApplication::VoicemeeterPotato | VoicemeeterApplication::PotatoX64Bits => true,
        _ => false,
    }
}

} // verus!
