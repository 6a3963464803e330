//! The arbitrary-parameter lifecycle dispatcher.
//!
//! The host drives an arbitrary-typed parameter through a fixed protocol
//! of lifecycle requests.  Each request carries zero, one or two handles
//! and expects one result.  The dispatcher executes the requested
//! operation against the host's handle service, keeping the ownership
//! discipline the protocol demands: a borrowed handle is reconstituted,
//! used, and returned to the host raw, never disposed; the one owned
//! handle (of a dispose request) is released exactly once.

use vstd::prelude::*;
use crate::error::Error;
use crate::host::{ByteStore, FlatHandle, copy_bytes};
use crate::value::{ArbCompare, ArbitraryData, Weight};

verus! {

/// One lifecycle request, with its typed payload: the tagged union the
/// host supplies, one variant per protocol function.
#[derive(Debug)]
pub enum ArbRequest {
    /// Produce a handle holding the serialized default value.
    NewFunc,
    /// Release the handle; the host passes ownership.
    DisposeFunc { handle: usize },
    /// Produce a new handle with the same bytes; the source is borrowed.
    CopyFunc { src: usize },
    /// Report the byte length of the borrowed handle.
    FlatSizeFunc { handle: usize },
    /// Hand out the borrowed handle's bytes for a host buffer of the
    /// given capacity.
    FlattenFunc { handle: usize, buf_size: usize },
    /// Produce a new handle holding a copy of the supplied bytes.
    UnflattenFunc { bytes: Vec<u8> },
    /// Produce a new handle holding the interpolation of the two
    /// borrowed operands at the given weight.
    InterpFunc { left: usize, right: usize, weight: Weight },
    /// Compare the values behind the two borrowed handles.
    CompareFunc { a: usize, b: usize },
    /// Report the text length, terminator included, of the borrowed
    /// handle's value.
    PrintSizeFunc { handle: usize },
    /// Render the borrowed handle's value as text, if it fits the
    /// host's buffer and the flags ask for plain rendering.
    PrintFunc { handle: usize, buf_size: usize, flags: u32 },
    /// Parse the supplied text and produce a new handle holding the
    /// serialized value.
    ScanFunc { text: Vec<u8> },
}

/// What a dispatch writes back through the host's output slot.
#[derive(Debug)]
pub enum ArbResponse {
    /// A freshly allocated handle now owned by the host.
    NewHandle { handle: usize },
    /// The owned handle was released.
    Disposed,
    /// A byte or text length.
    Size { size: u64 },
    /// The bytes to copy into the host's flatten buffer.
    Flat { bytes: Vec<u8> },
    /// The text to copy into the host's print buffer, or nothing when
    /// the protocol calls for a silent no-op.
    Printed { text: Option<Vec<u8>> },
    /// The ordering of the two compared values.
    Compared { order: ArbCompare },
}

/// The host's protocol number for each request kind.
pub open spec fn which_code(req: ArbRequest) -> u32 {
    match req {
        ArbRequest::NewFunc => 0,
        ArbRequest::DisposeFunc { .. } => 1,
        ArbRequest::CopyFunc { .. } => 2,
        ArbRequest::FlatSizeFunc { .. } => 3,
        ArbRequest::FlattenFunc { .. } => 4,
        ArbRequest::UnflattenFunc { .. } => 5,
        ArbRequest::InterpFunc { .. } => 6,
        ArbRequest::CompareFunc { .. } => 7,
        ArbRequest::PrintSizeFunc { .. } => 8,
        ArbRequest::PrintFunc { .. } => 9,
        ArbRequest::ScanFunc { .. } => 10,
    }
}

/// An interpolation weight the host may legally send; every other
/// request kind carries no weight.
pub open spec fn req_weight_wf(req: ArbRequest) -> bool {
    match req {
        ArbRequest::InterpFunc { weight, .. } => weight.wf(),
        _ => true,
    }
}

/// Whether the request names `h` among its input handles.
pub open spec fn req_names_input(req: ArbRequest, h: usize) -> bool {
    match req {
        ArbRequest::NewFunc => false,
        ArbRequest::DisposeFunc { handle } => handle == h,
        ArbRequest::CopyFunc { src } => src == h,
        ArbRequest::FlatSizeFunc { handle } => handle == h,
        ArbRequest::FlattenFunc { handle, .. } => handle == h,
        ArbRequest::UnflattenFunc { .. } => false,
        ArbRequest::InterpFunc { left, right, .. } => left == h || right == h,
        ArbRequest::CompareFunc { a, b } => a == h || b == h,
        ArbRequest::PrintSizeFunc { handle } => handle == h,
        ArbRequest::PrintFunc { handle, .. } => handle == h,
        ArbRequest::ScanFunc { .. } => false,
    }
}

/// The error a dead identifier is reported with: one the host never
/// handed out looks like a null handle, one already released like a
/// null stored pointer.
pub open spec fn dead_err(s: ByteStore, h: usize) -> Error {
    if h as int >= s.next_id() {
        Error::Generic
    } else {
        Error::InternalStructDamaged
    }
}

/// The store gained exactly one fresh block `h` holding `bytes`, and
/// nothing else changed.
pub open spec fn fresh_with(pre: ByteStore, post: ByteStore, h: usize, bytes: Seq<u8>) -> bool {
    &&& pre.can_alloc()
    &&& !pre.contents().contains_key(h as int)
    &&& post.contents() == pre.contents().insert(h as int, bytes)
    &&& post.next_id() == pre.next_id() + 1
    &&& post.limit_spec() == pre.limit_spec()
}

/// Every block live before is still live, with its bytes unchanged:
/// what the protocol owes the host for every borrowed handle.
pub open spec fn preserves(pre: ByteStore, post: ByteStore) -> bool {
    forall|h: usize| #[trigger] pre.live(h) ==> post.live(h) && post.at(h) == pre.at(h)
}

/// The full contract of one dispatch: for each request kind, exactly
/// when it succeeds, what the response holds, and what the store looks
/// like afterwards.  Every failing dispatch leaves the store exactly as
/// it was, so no half-made handle is ever reachable.
pub open spec fn dispatch_post<T: ArbitraryData>(
    req: ArbRequest,
    pre: ByteStore,
    post: ByteStore,
    r: Result<ArbResponse, Error>,
) -> bool {
    match req {
        ArbRequest::NewFunc => match r {
            Ok(resp) => resp matches ArbResponse::NewHandle { handle } && fresh_with(
                pre,
                post,
                handle,
                T::default_spec().flat_spec(),
            ),
            Err(e) => e == Error::OutOfMemory && !pre.can_alloc() && post == pre,
        },
        ArbRequest::DisposeFunc { handle } => match r {
            Ok(resp) => {
                &&& resp is Disposed
                &&& pre.live(handle)
                &&& post.contents() == pre.contents().remove(handle as int)
                &&& post.next_id() == pre.next_id()
                &&& post.limit_spec() == pre.limit_spec()
            },
            Err(e) => !pre.live(handle) && e == dead_err(pre, handle) && post == pre,
        },
        ArbRequest::CopyFunc { src } => match r {
            Ok(resp) => {
                &&& pre.live(src)
                &&& resp matches ArbResponse::NewHandle { handle } && fresh_with(
                    pre,
                    post,
                    handle,
                    pre.at(src),
                )
            },
            Err(e) => post == pre && (if !pre.live(src) {
                e == dead_err(pre, src)
            } else {
                e == Error::OutOfMemory && !pre.can_alloc()
            }),
        },
        ArbRequest::FlatSizeFunc { handle } => match r {
            Ok(resp) => {
                &&& post == pre
                &&& pre.live(handle)
                &&& resp matches ArbResponse::Size { size } && size == pre.at(handle).len()
            },
            Err(e) => post == pre && !pre.live(handle) && e == dead_err(pre, handle),
        },
        ArbRequest::FlattenFunc { handle, buf_size } => match r {
            Ok(resp) => {
                &&& post == pre
                &&& pre.live(handle)
                &&& pre.at(handle).len() <= buf_size
                &&& resp matches ArbResponse::Flat { bytes } && bytes@ == pre.at(handle)
            },
            Err(e) => post == pre && (if !pre.live(handle) {
                e == dead_err(pre, handle)
            } else {
                e == Error::Generic && pre.at(handle).len() > buf_size
            }),
        },
        ArbRequest::UnflattenFunc { bytes } => match r {
            Ok(resp) => resp matches ArbResponse::NewHandle { handle } && fresh_with(
                pre,
                post,
                handle,
                bytes@,
            ),
            Err(e) => e == Error::OutOfMemory && !pre.can_alloc() && post == pre,
        },
        ArbRequest::InterpFunc { left, right, weight } => match r {
            Ok(resp) => {
                &&& pre.live(left)
                &&& pre.live(right)
                &&& match (T::unflat_spec(pre.at(left)), T::unflat_spec(pre.at(right))) {
                    (Some(lv), Some(rv)) => resp matches ArbResponse::NewHandle { handle }
                        && fresh_with(
                        pre,
                        post,
                        handle,
                        lv.interpolate_spec(&rv, weight).flat_spec(),
                    ),
                    _ => false,
                }
            },
            Err(e) => {
                &&& post == pre
                &&& if !pre.live(left) {
                    e == dead_err(pre, left)
                } else if !pre.live(right) {
                    e == dead_err(pre, right)
                } else if T::unflat_spec(pre.at(left)) is None || T::unflat_spec(pre.at(right))
                    is None {
                    e == Error::Serialization
                } else {
                    e == Error::OutOfMemory && !pre.can_alloc()
                }
            },
        },
        ArbRequest::CompareFunc { a, b } => match r {
            Ok(resp) => {
                &&& post == pre
                &&& pre.live(a)
                &&& pre.live(b)
                &&& match (T::unflat_spec(pre.at(a)), T::unflat_spec(pre.at(b))) {
                    (Some(av), Some(bv)) => resp matches ArbResponse::Compared { order } && order
                        == av.cmp_spec(&bv),
                    _ => false,
                }
            },
            Err(e) => {
                &&& post == pre
                &&& if !pre.live(a) {
                    e == dead_err(pre, a)
                } else if !pre.live(b) {
                    e == dead_err(pre, b)
                } else {
                    e == Error::Serialization && (T::unflat_spec(pre.at(a)) is None || T::unflat_spec(
                        pre.at(b),
                    ) is None)
                }
            },
        },
        ArbRequest::PrintSizeFunc { handle } => match r {
            Ok(resp) => {
                &&& post == pre
                &&& pre.live(handle)
                &&& match T::unflat_spec(pre.at(handle)) {
                    Some(v) => resp matches ArbResponse::Size { size } && size == v.text_spec().len()
                        + 1,
                    None => false,
                }
            },
            Err(e) => {
                &&& post == pre
                &&& if !pre.live(handle) {
                    e == dead_err(pre, handle)
                } else {
                    e == Error::Serialization && T::unflat_spec(pre.at(handle)) is None
                }
            },
        },
        ArbRequest::PrintFunc { handle, buf_size, flags } => match r {
            Ok(resp) => {
                &&& post == pre
                &&& pre.live(handle)
                &&& match T::unflat_spec(pre.at(handle)) {
                    Some(v) => resp matches ArbResponse::Printed { text } && (if v.text_spec().len()
                        + 1 <= buf_size && flags == 0 {
                        text matches Some(t) && t@ == v.text_spec()
                    } else {
                        text is None
                    }),
                    None => false,
                }
            },
            Err(e) => {
                &&& post == pre
                &&& if !pre.live(handle) {
                    e == dead_err(pre, handle)
                } else {
                    e == Error::Serialization && T::unflat_spec(pre.at(handle)) is None
                }
            },
        },
        ArbRequest::ScanFunc { text } => match r {
            Ok(resp) => match T::scan_spec(text@) {
                Some(v) => resp matches ArbResponse::NewHandle { handle } && fresh_with(
                    pre,
                    post,
                    handle,
                    v.flat_spec(),
                ),
                None => false,
            },
            Err(e) => {
                &&& post == pre
                &&& if T::scan_spec(text@) is None {
                    e == Error::Serialization
                } else {
                    e == Error::OutOfMemory && !pre.can_alloc()
                }
            },
        },
    }
}

/// One host callback invocation for an arbitrary parameter: which
/// parameter it concerns, the plugin-chosen tag registered with it, and
/// the lifecycle request to execute.
pub struct ArbParamsExtra {
    id: isize,
    refcon: usize,
    request: ArbRequest,
}

impl ArbParamsExtra {
    /// The parameter identifier the host sent.
    pub closed spec fn id_spec(&self) -> isize {
        self.id
    }

    /// The plugin-chosen tag registered with the parameter.
    pub closed spec fn refcon_spec(&self) -> usize {
        self.refcon
    }

    /// The lifecycle request to execute.
    pub closed spec fn req(&self) -> ArbRequest {
        self.request
    }

    /// Package one callback invocation.
    pub fn new(id: isize, refcon: usize, request: ArbRequest) -> (r: ArbParamsExtra)
        ensures
            r.id_spec() == id,
            r.refcon_spec() == refcon,
            r.req() == request,
    {
        ArbParamsExtra { id, refcon, request }
    }

    /// The parameter identifier.
    pub fn id(&self) -> (r: isize)
        ensures
            r == self.id_spec(),
    {
        self.id
    }

    /// The plugin-chosen tag.
    pub fn refcon(&self) -> (r: usize)
        ensures
            r == self.refcon_spec(),
    {
        self.refcon
    }

    /// The host's protocol number of the requested operation.
    pub fn which_function(&self) -> (r: u32)
        ensures
            r == which_code(self.req()),
    {
        match &self.request {
            ArbRequest::NewFunc => 0,
            ArbRequest::DisposeFunc { .. } => 1,
            ArbRequest::CopyFunc { .. } => 2,
            ArbRequest::FlatSizeFunc { .. } => 3,
            ArbRequest::FlattenFunc { .. } => 4,
            ArbRequest::UnflattenFunc { .. } => 5,
            ArbRequest::InterpFunc { .. } => 6,
            ArbRequest::CompareFunc { .. } => 7,
            ArbRequest::PrintSizeFunc { .. } => 8,
            ArbRequest::PrintFunc { .. } => 9,
            ArbRequest::ScanFunc { .. } => 10,
        }
    }

    /// Execute the lifecycle request against the host's handle service,
    /// for value type `T`.
    ///
    /// The contract ([`dispatch_post`]) pins down, per request kind,
    /// exactly when the dispatch succeeds, what the response holds, and
    /// how the store changes.  Beyond that, every request but a dispose
    /// leaves all live blocks exactly as they were: a borrowed handle's
    /// identifier and bytes survive the call.
    pub fn dispatch<T: ArbitraryData>(&self, store: &mut ByteStore) -> (r: Result<
        ArbResponse,
        Error,
    >)
        requires
            req_weight_wf(self.req()),
        ensures
            dispatch_post::<T>(self.req(), *old(store), *final(store), r),
            !(self.req() is DisposeFunc) ==> preserves(*old(store), *final(store)),
    {
        match &self.request {
            ArbRequest::NewFunc => {
                let v = T::arb_default();
                proof {
                    T::lemma_default_wf();
                }
                let bytes = v.flatten();
                match FlatHandle::new(store, bytes) {
                    Ok(fh) => Ok(ArbResponse::NewHandle { handle: fh.into_raw() }),
                    Err(e) => Err(e),
                }
            },
            ArbRequest::DisposeFunc { handle } => {
                match FlatHandle::from_raw(store, *handle) {
                    Ok(fh) => {
                        fh.dispose(store);
                        Ok(ArbResponse::Disposed)
                    },
                    Err(e) => Err(e),
                }
            },
            ArbRequest::CopyFunc { src } => {
                match FlatHandle::from_raw(store, *src) {
                    Ok(fh) => {
                        let bytes = fh.to_vec(store);
                        let _returned = fh.into_raw();
                        match FlatHandle::new(store, bytes) {
                            Ok(nfh) => Ok(ArbResponse::NewHandle { handle: nfh.into_raw() }),
                            Err(e) => Err(e),
                        }
                    },
                    Err(e) => Err(e),
                }
            },
            ArbRequest::FlatSizeFunc { handle } => {
                match FlatHandle::from_raw(store, *handle) {
                    Ok(fh) => {
                        let sz = fh.size(store);
                        let _returned = fh.into_raw();
                        Ok(ArbResponse::Size { size: sz as u64 })
                    },
                    Err(e) => Err(e),
                }
            },
            ArbRequest::FlattenFunc { handle, buf_size } => {
                match FlatHandle::from_raw(store, *handle) {
                    Ok(fh) => {
                        let sz = fh.size(store);
                        if sz <= *buf_size {
                            let bytes = fh.to_vec(store);
                            let _returned = fh.into_raw();
                            Ok(ArbResponse::Flat { bytes })
                        } else {
                            let _returned = fh.into_raw();
                            Err(Error::Generic)
                        }
                    },
                    Err(e) => Err(e),
                }
            },
            ArbRequest::UnflattenFunc { bytes } => {
                let copy = copy_bytes(bytes);
                match FlatHandle::new(store, copy) {
                    Ok(fh) => Ok(ArbResponse::NewHandle { handle: fh.into_raw() }),
                    Err(e) => Err(e),
                }
            },
            ArbRequest::InterpFunc { left, right, weight } => {
                let lfh = match FlatHandle::from_raw(store, *left) {
                    Ok(f) => f,
                    Err(e) => {
                        return Err(e);
                    },
                };
                let lbytes = lfh.to_vec(store);
                let _returned_left = lfh.into_raw();
                let rfh = match FlatHandle::from_raw(store, *right) {
                    Ok(f) => f,
                    Err(e) => {
                        return Err(e);
                    },
                };
                let rbytes = rfh.to_vec(store);
                let _returned_right = rfh.into_raw();
                let lv = match T::unflatten(&lbytes) {
                    Some(v) => v,
                    None => {
                        return Err(Error::Serialization);
                    },
                };
                let rv = match T::unflatten(&rbytes) {
                    Some(v) => v,
                    None => {
                        return Err(Error::Serialization);
                    },
                };
                proof {
                    T::lemma_unflat_wf(lbytes@);
                    T::lemma_unflat_wf(rbytes@);
                }
                let out = lv.interpolate(&rv, *weight);
                proof {
                    lv.lemma_interpolate_wf(&rv, *weight);
                }
                let obytes = out.flatten();
                match FlatHandle::new(store, obytes) {
                    Ok(fh) => Ok(ArbResponse::NewHandle { handle: fh.into_raw() }),
                    Err(e) => Err(e),
                }
            },
            ArbRequest::CompareFunc { a, b } => {
                let afh = match FlatHandle::from_raw(store, *a) {
                    Ok(f) => f,
                    Err(e) => {
                        return Err(e);
                    },
                };
                let abytes = afh.to_vec(store);
                let _returned_a = afh.into_raw();
                let bfh = match FlatHandle::from_raw(store, *b) {
                    Ok(f) => f,
                    Err(e) => {
                        return Err(e);
                    },
                };
                let bbytes = bfh.to_vec(store);
                let _returned_b = bfh.into_raw();
                let av = match T::unflatten(&abytes) {
                    Some(v) => v,
                    None => {
                        return Err(Error::Serialization);
                    },
                };
                let bv = match T::unflatten(&bbytes) {
                    Some(v) => v,
                    None => {
                        return Err(Error::Serialization);
                    },
                };
                proof {
                    T::lemma_unflat_wf(abytes@);
                    T::lemma_unflat_wf(bbytes@);
                }
                let order = av.compare(&bv);
                Ok(ArbResponse::Compared { order })
            },
            ArbRequest::PrintSizeFunc { handle } => {
                let fh = match FlatHandle::from_raw(store, *handle) {
                    Ok(f) => f,
                    Err(e) => {
                        return Err(e);
                    },
                };
                let bytes = fh.to_vec(store);
                let _returned = fh.into_raw();
                let v = match T::unflatten(&bytes) {
                    Some(v) => v,
                    None => {
                        return Err(Error::Serialization);
                    },
                };
                proof {
                    T::lemma_unflat_wf(bytes@);
                }
                let t = v.print_text();
                proof {
                    v.lemma_text_len();
                }
                Ok(ArbResponse::Size { size: (t.len() as u64) + 1 })
            },
            ArbRequest::PrintFunc { handle, buf_size, flags } => {
                let fh = match FlatHandle::from_raw(store, *handle) {
                    Ok(f) => f,
                    Err(e) => {
                        return Err(e);
                    },
                };
                let bytes = fh.to_vec(store);
                let _returned = fh.into_raw();
                let v = match T::unflatten(&bytes) {
                    Some(v) => v,
                    None => {
                        return Err(Error::Serialization);
                    },
                };
                proof {
                    T::lemma_unflat_wf(bytes@);
                }
                let t = v.print_text();
                if *flags == 0 && t.len() < *buf_size {
                    Ok(ArbResponse::Printed { text: Some(t) })
                } else {
                    Ok(ArbResponse::Printed { text: None })
                }
            },
            ArbRequest::ScanFunc { text } => {
                match T::scan_text(text) {
                    Some(v) => {
                        proof {
                            T::lemma_scan_wf(text@);
                        }
                        let bytes = v.flatten();
                        match FlatHandle::new(store, bytes) {
                            Ok(fh) => Ok(ArbResponse::NewHandle { handle: fh.into_raw() }),
                            Err(e) => Err(e),
                        }
                    },
                    None => Err(Error::Serialization),
                }
            },
        }
    }
}

/// The request a raw callback invocation denotes: the selector is the
/// sole source of truth for how the payload slots are read.  A selector
/// this layer does not know is a reportable error; a missing buffer
/// where data is expected is a null pointer in the host's terms.
pub open spec fn request_of_parts(
    which: u32,
    handle_a: usize,
    handle_b: usize,
    buf_size: usize,
    flags: u32,
    weight: Weight,
    bytes: Option<Vec<u8>>,
) -> Result<ArbRequest, Error> {
    if which == 0 {
        Ok(ArbRequest::NewFunc)
    } else if which == 1 {
        Ok(ArbRequest::DisposeFunc { handle: handle_a })
    } else if which == 2 {
        Ok(ArbRequest::CopyFunc { src: handle_a })
    } else if which == 3 {
        Ok(ArbRequest::FlatSizeFunc { handle: handle_a })
    } else if which == 4 {
        Ok(ArbRequest::FlattenFunc { handle: handle_a, buf_size })
    } else if which == 5 {
        match bytes {
            Some(b) => Ok(ArbRequest::UnflattenFunc { bytes: b }),
            None => Err(Error::InvalidIndex),
        }
    } else if which == 6 {
        Ok(ArbRequest::InterpFunc { left: handle_a, right: handle_b, weight })
    } else if which == 7 {
        Ok(ArbRequest::CompareFunc { a: handle_a, b: handle_b })
    } else if which == 8 {
        Ok(ArbRequest::PrintSizeFunc { handle: handle_a })
    } else if which == 9 {
        Ok(ArbRequest::PrintFunc { handle: handle_a, buf_size, flags })
    } else if which == 10 {
        match bytes {
            Some(b) => Ok(ArbRequest::ScanFunc { text: b }),
            None => Err(Error::InvalidIndex),
        }
    } else {
        Err(Error::UnsupportedOperation)
    }
}

/// Rebuild a typed request from the host's raw selector and payload
/// slots, exactly as [`request_of_parts`] reads them.
pub fn request_from_parts(
    which: u32,
    handle_a: usize,
    handle_b: usize,
    buf_size: usize,
    flags: u32,
    weight: Weight,
    bytes: Option<Vec<u8>>,
) -> (r: Result<ArbRequest, Error>)
    ensures
        r == request_of_parts(which, handle_a, handle_b, buf_size, flags, weight, bytes),
{
    match which {
        0 => Ok(ArbRequest::NewFunc),
        1 => Ok(ArbRequest::DisposeFunc { handle: handle_a }),
        2 => Ok(ArbRequest::CopyFunc { src: handle_a }),
        3 => Ok(ArbRequest::FlatSizeFunc { handle: handle_a }),
        4 => Ok(ArbRequest::FlattenFunc { handle: handle_a, buf_size }),
        5 => match bytes {
            Some(b) => Ok(ArbRequest::UnflattenFunc { bytes: b }),
            None => Err(Error::InvalidIndex),
        },
        6 => Ok(ArbRequest::InterpFunc { left: handle_a, right: handle_b, weight }),
        7 => Ok(ArbRequest::CompareFunc { a: handle_a, b: handle_b }),
        8 => Ok(ArbRequest::PrintSizeFunc { handle: handle_a }),
        9 => Ok(ArbRequest::PrintFunc { handle: handle_a, buf_size, flags }),
        10 => match bytes {
            Some(b) => Ok(ArbRequest::ScanFunc { text: b }),
            None => Err(Error::InvalidIndex),
        },
        _ => Err(Error::UnsupportedOperation),
    }
}

/// Exactly-once disposal: once a dispose of `h` has succeeded, any
/// further request naming `h` as an input is rejected, until some later
/// operation has made the identifier live again.
pub proof fn lemma_dispose_then_rejected<T: ArbitraryData>(
    pre: ByteStore,
    mid: ByteStore,
    post: ByteStore,
    h: usize,
    r1: Result<ArbResponse, Error>,
    req2: ArbRequest,
    r2: Result<ArbResponse, Error>,
)
    requires
        dispatch_post::<T>(ArbRequest::DisposeFunc { handle: h }, pre, mid, r1),
        r1 is Ok,
        dispatch_post::<T>(req2, mid, post, r2),
        req_names_input(req2, h),
    ensures
        r2 is Err,
{
    assert(!mid.live(h));
}

/// Interpolation boundary: a successful interpolation dispatch at
/// weight zero yields a handle holding the serialized left operand, and
/// at weight one the serialized right operand.
pub proof fn lemma_interpolate_boundary<T: ArbitraryData>(
    pre: ByteStore,
    post: ByteStore,
    left: usize,
    right: usize,
    w: Weight,
    r: Result<ArbResponse, Error>,
)
    requires
        dispatch_post::<T>(
            ArbRequest::InterpFunc { left, right, weight: w },
            pre,
            post,
            r,
        ),
        r is Ok,
        w.millionths == 0 || w.millionths == crate::value::WEIGHT_ONE,
    ensures
        r->Ok_0 matches ArbResponse::NewHandle { handle } && (w.millionths == 0
            ==> post.contents()[handle as int] == T::unflat_spec(pre.at(left))->0.flat_spec()) && (
        w.millionths == crate::value::WEIGHT_ONE ==> post.contents()[handle as int]
            == T::unflat_spec(pre.at(right))->0.flat_spec()),
{
    let lv = T::unflat_spec(pre.at(left))->0;
    let rv = T::unflat_spec(pre.at(right))->0;
    T::lemma_unflat_wf(pre.at(left));
    T::lemma_unflat_wf(pre.at(right));
    lv.lemma_interpolate_ends(&rv);
}

/// Compare consistency: a successful compare of a handle with itself
/// always reports `Equal`.
pub proof fn lemma_compare_self<T: ArbitraryData>(
    pre: ByteStore,
    post: ByteStore,
    h: usize,
    r: Result<ArbResponse, Error>,
)
    requires
        dispatch_post::<T>(ArbRequest::CompareFunc { a: h, b: h }, pre, post, r),
        r is Ok,
    ensures
        r->Ok_0 matches ArbResponse::Compared { order } && order == ArbCompare::Equal,
{
    let v = T::unflat_spec(pre.at(h))->0;
    T::lemma_unflat_wf(pre.at(h));
    v.lemma_cmp_equal();
}

} // verus!
