//! The per-device buffer abstraction: a device's channels for one
//! invocation, either present or absent, and the helpers that extract
//! and copy channel blocks.

use vstd::prelude::*;

use crate::types::ChannelIndex;

verus! {

broadcast use vstd::std_specs::vec::group_vec_axioms;

/// A device's buffer for one invocation.
///
/// `Present` holds the device's channels; `Absent` stands for a device
/// that does not exist for the current variant and mode.
#[derive(Debug, PartialEq, Eq)]
pub enum DeviceBuffer<T> {
    /// The device does not exist here.
    Absent,
    /// The device's channels.
    Present(T),
}

impl<T> Default for DeviceBuffer<T> {
    /// The default device buffer is `Absent`.
    fn default() -> (r: Self)
        ensures
            r matches DeviceBuffer::Absent,
    {
        DeviceBuffer::Absent
    }
}

impl<T> DeviceBuffer<T> {
    /// Converts from `&DeviceBuffer<T>` to `Option<&T>`.
    pub fn as_opt_ref(&self) -> (r: Option<&T>)
        ensures
            self matches DeviceBuffer::Present(t) ==> (r matches Some(m) && *m == t),
            self matches DeviceBuffer::Absent ==> r is None,
    {
        match self {
            Self::Absent => None,
            Self::Present(t) => Some(t),
        }
    }

    /// Converts from `&mut DeviceBuffer<T>` to `Option<&mut T>`.
    pub fn as_opt_mut(&mut self) -> (r: Option<&mut T>)
        ensures
            *old(self) matches DeviceBuffer::Absent ==> (r is None && *final(self)
                == *old(self)),
            *old(self) matches DeviceBuffer::Present(t) ==> (r matches Some(m) && *m == t
                && *final(self) == DeviceBuffer::Present(*final(m))),
    {
        match self {
            Self::Absent => None,
            Self::Present(t) => Some(t),
        }
    }

    /// Converts from `&DeviceBuffer<T>` to `DeviceBuffer<&T>`.
    pub fn as_ref(&self) -> (r: DeviceBuffer<&T>)
        ensures
            self matches DeviceBuffer::Present(t) ==> (r matches DeviceBuffer::Present(m) && *m
                == t),
            self matches DeviceBuffer::Absent ==> r matches DeviceBuffer::Absent,
    {
        match self {
            Self::Absent => DeviceBuffer::Absent,
            Self::Present(t) => DeviceBuffer::Present(t),
        }
    }

    /// Converts from `&mut DeviceBuffer<T>` to `DeviceBuffer<&mut T>`.
    pub fn as_mut(&mut self) -> (r: DeviceBuffer<&mut T>)
        ensures
            *old(self) matches DeviceBuffer::Absent ==> (r matches DeviceBuffer::Absent
                && *final(self) == *old(self)),
            *old(self) matches DeviceBuffer::Present(t) ==> (r matches DeviceBuffer::Present(m)
                && *m == t && *final(self) == DeviceBuffer::Present(*final(m))),
    {
        match self {
            Self::Absent => DeviceBuffer::Absent,
            Self::Present(t) => DeviceBuffer::Present(t),
        }
    }

    /// Returns `true` if the device buffer is `Absent`.
    pub fn is_none(&self) -> (r: bool)
        ensures
            r == (self matches DeviceBuffer::Absent),
    {
        matches!(self, Self::Absent)
    }

    /// Returns `true` if the device buffer is `Present`.
    pub fn is_buffer(&self) -> (r: bool)
        ensures
            r == (self matches DeviceBuffer::Present(_)),
    {
        matches!(self, Self::Present(..))
    }
}

impl<S: Copy> DeviceBuffer<Vec<Vec<S>>> {
    /// Apply a function to every sample of this write buffer, paired
    /// with the same sample of a read buffer: sample `i` of channel
    /// `c` becomes `f(c, read sample, old write sample)`. Channels
    /// are paired up to the shorter side's channel count; if either
    /// device is absent nothing happens.
    pub fn apply_all_samples<F: Fn(usize, S, S) -> S>(
        &mut self,
        read: &DeviceBuffer<Vec<Vec<S>>>,
        f: F,
    )
        requires
            ({
                let w = device_contents(*old(self));
                let r = device_contents(*read);
                (w is Some && r is Some) ==> {
                    let wc = w->0;
                    let rc = r->0;
                    let paired = if wc.len() <= rc.len() {
                        wc.len()
                    } else {
                        rc.len()
                    };
                    &&& forall|c: int| 0 <= c < paired ==> rc[c].len() >= wc[c].len()
                    &&& forall|c: int, i: int|
                        (0 <= c < paired && 0 <= i < wc[c].len()) ==> call_requires(
                            f,
                            (c as usize, rc[c][i], wc[c][i]),
                        )
                }
            }),
        ensures
            device_contents(*old(self)) is None ==> *final(self) == *old(self),
            device_contents(*read) is None ==> *final(self) == *old(self),
            ({
                let w = device_contents(*old(self));
                let r = device_contents(*read);
                (w is Some && r is Some) ==> {
                    let wc = w->0;
                    let rc = r->0;
                    let out = device_contents(*final(self));
                    let paired = if wc.len() <= rc.len() {
                        wc.len()
                    } else {
                        rc.len()
                    };
                    &&& out is Some
                    &&& out->0.len() == wc.len()
                    &&& forall|c: int| 0 <= c < wc.len() ==> out->0[c].len() == wc[c].len()
                    &&& forall|c: int, i: int|
                        (0 <= c < paired && 0 <= i < wc[c].len()) ==> call_ensures(
                            f,
                            (c as usize, rc[c][i], wc[c][i]),
                            out->0[c][i],
                        )
                    &&& forall|c: int| paired <= c < wc.len() ==> out->0[c] == wc[c]
                }
            }),
    {
        match read {
            DeviceBuffer::Absent => {},
            DeviceBuffer::Present(r_vec) => {
                match self {
                    DeviceBuffer::Absent => {},
                    DeviceBuffer::Present(w) => {
                        let ghost w0 = *w;
                        proof {
                            assert(*old(self) == DeviceBuffer::Present(w0));
                        }
                        let paired = if w.len() <= r_vec.len() {
                            w.len()
                        } else {
                            r_vec.len()
                        };
                        proof {
                            assert(*read == DeviceBuffer::Present(*r_vec));
                            let wc = chans_view(w0);
                            let rc = chans_view(*r_vec);
                            let w_opt = device_contents(*old(self));
                            let r_opt = device_contents(*read);
                            assert(w_opt == Some(wc) && r_opt == Some(rc));
                            assert(w_opt->0 == wc && r_opt->0 == rc);
                            assert forall|cc: int| 0 <= cc < paired implies r_vec@[cc]@.len()
                                >= w0@[cc]@.len() by {
                                assert(rc[cc] == r_vec@[cc]@);
                                assert(wc[cc] == w0@[cc]@);
                            }
                            assert forall|cc: int, i: int|
                                (0 <= cc < paired && 0 <= i < w0@[cc]@.len())
                                    implies call_requires(
                                f,
                                (cc as usize, r_vec@[cc]@[i], w0@[cc]@[i]),
                            ) by {
                                assert(rc[cc] == r_vec@[cc]@);
                                assert(wc[cc] == w0@[cc]@);
                            }
                        }
                        let mut c: usize = 0;
                        while c < paired
                            invariant
                                c <= paired,
                                paired <= w0@.len(),
                                paired <= r_vec@.len(),
                                w@.len() == w0@.len(),
                                forall|cc: int| 0 <= cc < paired ==> r_vec@[cc]@.len()
                                    >= w0@[cc]@.len(),
                                forall|cc: int, i: int|
                                    (0 <= cc < paired && 0 <= i < w0@[cc]@.len())
                                        ==> call_requires(
                                        f,
                                        (cc as usize, r_vec@[cc]@[i], w0@[cc]@[i]),
                                    ),
                                forall|cc: int| 0 <= cc < w@.len() ==> w@[cc]@.len()
                                    == w0@[cc]@.len(),
                                forall|cc: int, i: int|
                                    (0 <= cc < c && 0 <= i < w0@[cc]@.len()) ==> call_ensures(
                                        f,
                                        (cc as usize, r_vec@[cc]@[i], w0@[cc]@[i]),
                                        #[trigger] w@[cc]@[i],
                                    ),
                                forall|cc: int| c <= cc < w@.len() ==> w@[cc] == w0@[cc],
                            decreases paired - c,
                        {
                            let row = vstd::std_specs::vec::vec_index_mut(w, c);
                            let mut i: usize = 0;
                            while i < row.len()
                                invariant
                                    i <= row@.len(),
                                    c < paired,
                                    paired <= r_vec@.len(),
                                    row@.len() == w0@[c as int]@.len(),
                                    r_vec@[c as int]@.len() >= w0@[c as int]@.len(),
                                    forall|k: int|
                                        (0 <= k < w0@[c as int]@.len()) ==> call_requires(
                                            f,
                                            (c, r_vec@[c as int]@[k], w0@[c as int]@[k]),
                                        ),
                                    forall|k: int| (0 <= k < i) ==> call_ensures(
                                        f,
                                        (c, r_vec@[c as int]@[k], w0@[c as int]@[k]),
                                        #[trigger] row@[k],
                                    ),
                                    forall|k: int| i <= k < row@.len() ==> row@[k]
                                        == w0@[c as int]@[k],
                                decreases row@.len() - i,
                            {
                                let read_sample = vstd::std_specs::vec::vec_index(
                                    &r_vec[c],
                                    i,
                                );
                                row[i] = f(c, *read_sample, row[i]);
                                i = i + 1;
                            }
                            c = c + 1;
                        }
                        proof {
                            let wc = chans_view(w0);
                            let rc = chans_view(*r_vec);
                            let out_view = chans_view(*w);
                            assert forall|cc: int| 0 <= cc < wc.len() implies (#[trigger]
                            out_view[cc]).len() == wc[cc].len() by {
                                assert(out_view[cc] == w@[cc]@);
                                assert(wc[cc] == w0@[cc]@);
                            }
                            assert forall|cc: int, i: int|
                                (0 <= cc < paired && 0 <= i < wc[cc].len()) implies call_ensures(
                                f,
                                (cc as usize, rc[cc][i], wc[cc][i]),
                                #[trigger] out_view[cc][i],
                            ) by {
                                assert(out_view[cc] == w@[cc]@);
                                assert(rc[cc] == r_vec@[cc]@);
                                assert(wc[cc] == w0@[cc]@);
                            }
                            assert forall|cc: int| paired <= cc < wc.len() implies #[trigger]
                            out_view[cc] == wc[cc] by {
                                assert(out_view[cc] == w@[cc]@);
                                assert(wc[cc] == w0@[cc]@);
                                assert(w@[cc] == w0@[cc]);
                            }
                        }
                    },
                }
            },
        }
    }
}

/// The channels of a channel matrix, as a sequence of sample
/// sequences.
pub open spec fn chans_view<S>(v: Vec<Vec<S>>) -> Seq<Seq<S>> {
    Seq::new(v@.len() as nat, |i: int| v@[i]@)
}

/// The contents of a device buffer holding a channel matrix, or `None`
/// when the device is absent.
pub open spec fn device_contents<S>(b: DeviceBuffer<Vec<Vec<S>>>) -> Option<Seq<Seq<S>>> {
    match b {
        DeviceBuffer::Absent => None,
        DeviceBuffer::Present(v) => Some(chans_view(v)),
    }
}

/// The contents of a borrowed device buffer, or `None` when the
/// device is absent.
pub open spec fn device_contents_ref<S>(b: DeviceBuffer<&Vec<Vec<S>>>) -> Option<Seq<Seq<S>>> {
    match b {
        DeviceBuffer::Absent => None,
        DeviceBuffer::Present(v) => Some(chans_view(*v)),
    }
}

/// The channel block a range addresses within a channel matrix, or
/// `None` when the range is absent.
pub open spec fn spec_extract<S>(data: Seq<Seq<S>>, range: Option<ChannelIndex>) -> Option<
    Seq<Seq<S>>,
> {
    match range {
        Some(idx) => Some(data.subrange(idx.start as int, idx.start + idx.size)),
        None => None,
    }
}

/// What one device's write-side contents are after a bulk copy: the
/// read-side contents where the device was requested and present on
/// both sides, and the old contents otherwise. Absent devices are
/// skipped silently.
pub open spec fn bulk_copy_contents<S>(
    w: Option<Seq<Seq<S>>>,
    r: Option<Seq<Seq<S>>>,
    requested: bool,
) -> Option<Seq<Seq<S>>> {
    if requested && w is Some && r is Some {
        r
    } else {
        w
    }
}

/// Bulk-copying from a fixed read buffer a second time changes
/// nothing: the copy is idempotent, device by device.
pub proof fn lemma_bulk_copy_idempotent<S>(
    w: Option<Seq<Seq<S>>>,
    r: Option<Seq<Seq<S>>>,
    requested: bool,
)
    ensures
        bulk_copy_contents(bulk_copy_contents(w, r, requested), r, requested) == bulk_copy_contents(
            w,
            r,
            requested,
        ),
{
}

/// Whether a device occurs among the first `upto` requested devices.
pub open spec fn requested_in(devices: Seq<crate::types::Device>, upto: int, d: crate::types::Device) -> bool {
    exists|i: int| 0 <= i < upto && devices[i] == d
}

/// Whether a write-side device and a read-side device have matching
/// layouts, so that a copy between them is well defined: equal channel
/// counts and equal per-channel lengths whenever both are present.
pub open spec fn copy_compatible<S>(w: Option<Seq<Seq<S>>>, r: Option<Seq<Seq<S>>>) -> bool {
    (w is Some && r is Some) ==> {
        &&& w->0.len() == r->0.len()
        &&& forall|i: int| 0 <= i < w->0.len() ==> w->0[i].len() == r->0[i].len()
    }
}

/// Copy one channel's samples into a fresh vector.
pub fn copy_row<S: Copy>(src: &Vec<S>) -> (r: Vec<S>)
    ensures
        r@ == src@,
{
    let mut r: Vec<S> = Vec::new();
    let mut i: usize = 0;
    while i < src.len()
        invariant
            i <= src.len(),
            r.len() == i,
            forall|k: int| 0 <= k < i ==> r@[k] == src@[k],
        decreases src.len() - i,
    {
        r.push(src[i]);
        i = i + 1;
    }
    proof {
        assert(r@ =~= src@);
    }
    r
}

/// Copy a block of channels out of a channel matrix.
pub fn extract_channels<S: Copy>(data: &Vec<Vec<S>>, range: &Option<ChannelIndex>) -> (r:
    DeviceBuffer<Vec<Vec<S>>>)
    requires
        range matches Some(idx) ==> idx.start + idx.size <= data@.len(),
    ensures
        device_contents(r) == spec_extract(chans_view(*data), *range),
{
    match range {
        Option::None => DeviceBuffer::Absent,
        Option::Some(idx) => {
            let mut out: Vec<Vec<S>> = Vec::new();
            let mut i: usize = 0;
            while i < idx.size
                invariant
                    i <= idx.size,
                    idx.start + idx.size <= data.len(),
                    out.len() == i,
                    forall|k: int| 0 <= k < i ==> out@[k]@ == data@[idx.start + k]@,
                decreases idx.size - i,
            {
                out.push(copy_row(&data[idx.start + i]));
                i = i + 1;
            }
            proof {
                assert(chans_view(out) =~= chans_view(*data).subrange(
                    idx.start as int,
                    idx.start + idx.size,
                ));
            }
            DeviceBuffer::Present(out)
        },
    }
}

/// Copy one channel's samples over another channel, element-wise.
pub fn copy_channel<S: Copy>(dst: &mut Vec<S>, src: &Vec<S>)
    requires
        old(dst)@.len() == src@.len(),
    ensures
        final(dst)@ == src@,
{
    let mut j: usize = 0;
    while j < src.len()
        invariant
            j <= src.len(),
            dst.len() == src.len(),
            forall|k: int| 0 <= k < j ==> dst@[k] == src@[k],
        decreases src.len() - j,
    {
        dst[j] = src[j];
        j = j + 1;
    }
    proof {
        assert(dst@ =~= src@);
    }
}

/// Copy the read-side channels of one device over the write-side
/// channels, element-wise and in place, skipping silently when either
/// side is absent.
pub fn copy_field<S: Copy>(dst: &mut DeviceBuffer<Vec<Vec<S>>>, src: DeviceBuffer<&Vec<Vec<S>>>)
    requires
        copy_compatible(device_contents(*old(dst)), device_contents_ref(src)),
    ensures
        device_contents(*final(dst)) == bulk_copy_contents(
            device_contents(*old(dst)),
            device_contents_ref(src),
            true,
        ),
{
    match src {
        DeviceBuffer::Absent => {},
        DeviceBuffer::Present(v) => {
            match dst {
                DeviceBuffer::Absent => {},
                DeviceBuffer::Present(w) => {
                    proof {
                        assert(*old(dst) == DeviceBuffer::Present(*w));
                        assert(copy_compatible(Some(chans_view(*w)), Some(chans_view(*v))));
                        assert forall|k: int| 0 <= k < w@.len() implies w@[k]@.len()
                            == v@[k]@.len() by {
                            assert(chans_view(*w)[k].len() == chans_view(*v)[k].len());
                        }
                    }
                    let mut i: usize = 0;
                    while i < v.len()
                        invariant
                            i <= v.len(),
                            w.len() == v.len(),
                            forall|k: int| 0 <= k < w@.len() ==> w@[k]@.len() == v@[k]@.len(),
                            forall|k: int| 0 <= k < i ==> w@[k]@ == v@[k]@,
                        decreases v.len() - i,
                    {
                        let row = vstd::std_specs::vec::vec_index_mut(w, i);
                        copy_channel(row, &v[i]);
                        i = i + 1;
                    }
                    proof {
                        assert(chans_view(*w) =~= chans_view(*v));
                    }
                },
            }
        },
    }
}

} // verus!
