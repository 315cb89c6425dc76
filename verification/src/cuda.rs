use vstd::prelude::*;

use crate::id::Node;

verus! {

/// Opaque driver context record.
#[allow(non_camel_case_types)]
pub enum CUctx_st {
    /// The driver-owned record; the library never builds one itself.
    Opaque,
}

/// Opaque driver module record.
#[allow(non_camel_case_types)]
pub enum CUmod_st {
    /// The driver-owned record; the library never builds one itself.
    Opaque,
}

/// Opaque driver function record.
#[allow(non_camel_case_types)]
pub enum CUfunc_st {
    /// The driver-owned record; the library never builds one itself.
    Opaque,
}

/// Opaque driver stream record.
#[allow(non_camel_case_types)]
pub enum CUstream_st {
    /// The driver-owned record; the library never builds one itself.
    Opaque,
}

/// A status code returned by every CUDA driver call.
#[derive(Debug, Clone, Copy, PartialEq, Eq, Hash, Structural)]
#[allow(non_camel_case_types)]
pub enum CUresult {
    /// Driver status code 0.
    CUDA_SUCCESS,
    /// Driver status code 1.
    CUDA_ERROR_INVALID_VALUE,
    /// Driver status code 2.
    CUDA_ERROR_OUT_OF_MEMORY,
    /// Driver status code 3.
    CUDA_ERROR_NOT_INITIALIZED,
    /// Driver status code 4.
    CUDA_ERROR_DEINITIALIZED,
    /// Driver status code 5.
    CUDA_ERROR_PROFILER_DISABLED,
    /// Driver status code 6.
    CUDA_ERROR_PROFILER_NOT_INITIALIZED,
    /// Driver status code 7.
    CUDA_ERROR_PROFILER_ALREADY_STARTED,
    /// Driver status code 8.
    CUDA_ERROR_PROFILER_ALREADY_STOPPED,
    /// Driver status code 100.
    CUDA_ERROR_NO_DEVICE,
    /// Driver status code 101.
    CUDA_ERROR_INVALID_DEVICE,
    /// Driver status code 200.
    CUDA_ERROR_INVALID_IMAGE,
    /// Driver status code 201.
    CUDA_ERROR_INVALID_CONTEXT,
    /// Driver status code 202.
    CUDA_ERROR_CONTEXT_ALREADY_CURRENT,
    /// Driver status code 205.
    CUDA_ERROR_MAP_FAILED,
    /// Driver status code 206.
    CUDA_ERROR_UNMAP_FAILED,
    /// Driver status code 207.
    CUDA_ERROR_ARRAY_IS_MAPPED,
    /// Driver status code 208.
    CUDA_ERROR_ALREADY_MAPPED,
    /// Driver status code 209.
    CUDA_ERROR_NO_BINARY_FOR_GPU,
    /// Driver status code 210.
    CUDA_ERROR_ALREADY_ACQUIRED,
    /// Driver status code 211.
    CUDA_ERROR_NOT_MAPPED,
    /// Driver status code 212.
    CUDA_ERROR_NOT_MAPPED_AS_ARRAY,
    /// Driver status code 213.
    CUDA_ERROR_NOT_MAPPED_AS_POINTER,
    /// Driver status code 214.
    CUDA_ERROR_ECC_UNCORRECTABLE,
    /// Driver status code 215.
    CUDA_ERROR_UNSUPPORTED_LIMIT,
    /// Driver status code 216.
    CUDA_ERROR_CONTEXT_ALREADY_IN_USE,
    /// Driver status code 217.
    CUDA_ERROR_PEER_ACCESS_UNSUPPORTED,
    /// Driver status code 218.
    CUDA_ERROR_INVALID_PTX,
    /// Driver status code 219.
    CUDA_ERROR_INVALID_GRAPHICS_CONTEXT,
    /// Driver status code 220.
    CUDA_ERROR_NVLINK_UNCORRECTABLE,
    /// Driver status code 221.
    CUDA_ERROR_JIT_COMPILER_NOT_FOUND,
    /// Driver status code 300.
    CUDA_ERROR_INVALID_SOURCE,
    /// Driver status code 301.
    CUDA_ERROR_FILE_NOT_FOUND,
    /// Driver status code 302.
    CUDA_ERROR_SHARED_OBJECT_SYMBOL_NOT_FOUND,
    /// Driver status code 303.
    CUDA_ERROR_SHARED_OBJECT_INIT_FAILED,
    /// Driver status code 304.
    CUDA_ERROR_OPERATING_SYSTEM,
    /// Driver status code 400.
    CUDA_ERROR_INVALID_HANDLE,
    /// Driver status code 401.
    CUDA_ERROR_ILLEGAL_STATE,
    /// Driver status code 500.
    CUDA_ERROR_NOT_FOUND,
    /// Driver status code 600.
    CUDA_ERROR_NOT_READY,
    /// Driver status code 700.
    CUDA_ERROR_ILLEGAL_ADDRESS,
    /// Driver status code 701.
    CUDA_ERROR_LAUNCH_OUT_OF_RESOURCES,
    /// Driver status code 702.
    CUDA_ERROR_LAUNCH_TIMEOUT,
    /// Driver status code 703.
    CUDA_ERROR_LAUNCH_INCOMPATIBLE_TEXTURING,
    /// Driver status code 704.
    CUDA_ERROR_PEER_ACCESS_ALREADY_ENABLED,
    /// Driver status code 705.
    CUDA_ERROR_PEER_ACCESS_NOT_ENABLED,
    /// Driver status code 708.
    CUDA_ERROR_PRIMARY_CONTEXT_ACTIVE,
    /// Driver status code 709.
    CUDA_ERROR_CONTEXT_IS_DESTROYED,
    /// Driver status code 710.
    CUDA_ERROR_ASSERT,
    /// Driver status code 711.
    CUDA_ERROR_TOO_MANY_PEERS,
    /// Driver status code 712.
    CUDA_ERROR_HOST_MEMORY_ALREADY_REGISTERED,
    /// Driver status code 713.
    CUDA_ERROR_HOST_MEMORY_NOT_REGISTERED,
    /// Driver status code 714.
    CUDA_ERROR_HARDWARE_STACK_ERROR,
    /// Driver status code 715.
    CUDA_ERROR_ILLEGAL_INSTRUCTION,
    /// Driver status code 716.
    CUDA_ERROR_MISALIGNED_ADDRESS,
    /// Driver status code 717.
    CUDA_ERROR_INVALID_ADDRESS_SPACE,
    /// Driver status code 718.
    CUDA_ERROR_INVALID_PC,
    /// Driver status code 719.
    CUDA_ERROR_LAUNCH_FAILED,
    /// Driver status code 720.
    CUDA_ERROR_COOPERATIVE_LAUNCH_TOO_LARGE,
    /// Driver status code 800.
    CUDA_ERROR_NOT_PERMITTED,
    /// Driver status code 801.
    CUDA_ERROR_NOT_SUPPORTED,
    /// Driver status code 802.
    CUDA_ERROR_SYSTEM_NOT_READY,
    /// Driver status code 803.
    CUDA_ERROR_SYSTEM_DRIVER_MISMATCH,
    /// Driver status code 804.
    CUDA_ERROR_COMPAT_NOT_SUPPORTED_ON_DEVICE,
    /// Driver status code 900.
    CUDA_ERROR_STREAM_CAPTURE_UNSUPPORTED,
    /// Driver status code 901.
    CUDA_ERROR_STREAM_CAPTURE_INVALIDATED,
    /// Driver status code 902.
    CUDA_ERROR_STREAM_CAPTURE_MERGE,
    /// Driver status code 903.
    CUDA_ERROR_STREAM_CAPTURE_UNMATCHED,
    /// Driver status code 904.
    CUDA_ERROR_STREAM_CAPTURE_UNJOINED,
    /// Driver status code 905.
    CUDA_ERROR_STREAM_CAPTURE_ISOLATION,
    /// Driver status code 906.
    CUDA_ERROR_STREAM_CAPTURE_IMPLICIT,
    /// Driver status code 907.
    CUDA_ERROR_CAPTURED_EVENT,
    /// Driver status code 908.
    CUDA_ERROR_STREAM_CAPTURE_WRONG_THREAD,
    /// Driver status code 909.
    CUDA_ERROR_TIMEOUT,
    /// Driver status code 910.
    CUDA_ERROR_GRAPH_EXEC_UPDATE_FAILURE,
    /// Driver status code 999.
    CUDA_ERROR_UNKNOWN,
}

/// A failed CUDA driver call, carrying the driver's numeric status code.
#[derive(Debug, Clone, Copy, PartialEq, Eq, Structural)]
pub struct CudaErrorKind {
    /// The driver's numeric status code.
    pub code: u32,
}

/// The result type CUDA driver calls are surfaced as.
pub type CudaResult<T> = Result<T, CudaErrorKind>;

impl CUresult {
    /// The numeric status code the driver uses for this status.
    #[verifier::allow_in_spec]
    pub fn code(&self) -> u32
        returns
            (match self {
            CUresult::CUDA_SUCCESS => 0u32,
            CUresult::CUDA_ERROR_INVALID_VALUE => 1u32,
            CUresult::CUDA_ERROR_OUT_OF_MEMORY => 2u32,
            CUresult::CUDA_ERROR_NOT_INITIALIZED => 3u32,
            CUresult::CUDA_ERROR_DEINITIALIZED => 4u32,
            CUresult::CUDA_ERROR_PROFILER_DISABLED => 5u32,
            CUresult::CUDA_ERROR_PROFILER_NOT_INITIALIZED => 6u32,
            CUresult::CUDA_ERROR_PROFILER_ALREADY_STARTED => 7u32,
            CUresult::CUDA_ERROR_PROFILER_ALREADY_STOPPED => 8u32,
            CUresult::CUDA_ERROR_NO_DEVICE => 100u32,
            CUresult::CUDA_ERROR_INVALID_DEVICE => 101u32,
            CUresult::CUDA_ERROR_INVALID_IMAGE => 200u32,
            CUresult::CUDA_ERROR_INVALID_CONTEXT => 201u32,
            CUresult::CUDA_ERROR_CONTEXT_ALREADY_CURRENT => 202u32,
            CUresult::CUDA_ERROR_MAP_FAILED => 205u32,
            CUresult::CUDA_ERROR_UNMAP_FAILED => 206u32,
            CUresult::CUDA_ERROR_ARRAY_IS_MAPPED => 207u32,
            CUresult::CUDA_ERROR_ALREADY_MAPPED => 208u32,
            CUresult::CUDA_ERROR_NO_BINARY_FOR_GPU => 209u32,
            CUresult::CUDA_ERROR_ALREADY_ACQUIRED => 210u32,
            CUresult::CUDA_ERROR_NOT_MAPPED => 211u32,
            CUresult::CUDA_ERROR_NOT_MAPPED_AS_ARRAY => 212u32,
            CUresult::CUDA_ERROR_NOT_MAPPED_AS_POINTER => 213u32,
            CUresult::CUDA_ERROR_ECC_UNCORRECTABLE => 214u32,
            CUresult::CUDA_ERROR_UNSUPPORTED_LIMIT => 215u32,
            CUresult::CUDA_ERROR_CONTEXT_ALREADY_IN_USE => 216u32,
            CUresult::CUDA_ERROR_PEER_ACCESS_UNSUPPORTED => 217u32,
            CUresult::CUDA_ERROR_INVALID_PTX => 218u32,
            CUresult::CUDA_ERROR_INVALID_GRAPHICS_CONTEXT => 219u32,
            CUresult::CUDA_ERROR_NVLINK_UNCORRECTABLE => 220u32,
            CUresult::CUDA_ERROR_JIT_COMPILER_NOT_FOUND => 221u32,
            CUresult::CUDA_ERROR_INVALID_SOURCE => 300u32,
            CUresult::CUDA_ERROR_FILE_NOT_FOUND => 301u32,
            CUresult::CUDA_ERROR_SHARED_OBJECT_SYMBOL_NOT_FOUND => 302u32,
            CUresult::CUDA_ERROR_SHARED_OBJECT_INIT_FAILED => 303u32,
            CUresult::CUDA_ERROR_OPERATING_SYSTEM => 304u32,
            CUresult::CUDA_ERROR_INVALID_HANDLE => 400u32,
            CUresult::CUDA_ERROR_ILLEGAL_STATE => 401u32,
            CUresult::CUDA_ERROR_NOT_FOUND => 500u32,
            CUresult::CUDA_ERROR_NOT_READY => 600u32,
            CUresult::CUDA_ERROR_ILLEGAL_ADDRESS => 700u32,
            CUresult::CUDA_ERROR_LAUNCH_OUT_OF_RESOURCES => 701u32,
            CUresult::CUDA_ERROR_LAUNCH_TIMEOUT => 702u32,
            CUresult::CUDA_ERROR_LAUNCH_INCOMPATIBLE_TEXTURING => 703u32,
            CUresult::CUDA_ERROR_PEER_ACCESS_ALREADY_ENABLED => 704u32,
            CUresult::CUDA_ERROR_PEER_ACCESS_NOT_ENABLED => 705u32,
            CUresult::CUDA_ERROR_PRIMARY_CONTEXT_ACTIVE => 708u32,
            CUresult::CUDA_ERROR_CONTEXT_IS_DESTROYED => 709u32,
            CUresult::CUDA_ERROR_ASSERT => 710u32,
            CUresult::CUDA_ERROR_TOO_MANY_PEERS => 711u32,
            CUresult::CUDA_ERROR_HOST_MEMORY_ALREADY_REGISTERED => 712u32,
            CUresult::CUDA_ERROR_HOST_MEMORY_NOT_REGISTERED => 713u32,
            CUresult::CUDA_ERROR_HARDWARE_STACK_ERROR => 714u32,
            CUresult::CUDA_ERROR_ILLEGAL_INSTRUCTION => 715u32,
            CUresult::CUDA_ERROR_MISALIGNED_ADDRESS => 716u32,
            CUresult::CUDA_ERROR_INVALID_ADDRESS_SPACE => 717u32,
            CUresult::CUDA_ERROR_INVALID_PC => 718u32,
            CUresult::CUDA_ERROR_LAUNCH_FAILED => 719u32,
            CUresult::CUDA_ERROR_COOPERATIVE_LAUNCH_TOO_LARGE => 720u32,
            CUresult::CUDA_ERROR_NOT_PERMITTED => 800u32,
            CUresult::CUDA_ERROR_NOT_SUPPORTED => 801u32,
            CUresult::CUDA_ERROR_SYSTEM_NOT_READY => 802u32,
            CUresult::CUDA_ERROR_SYSTEM_DRIVER_MISMATCH => 803u32,
            CUresult::CUDA_ERROR_COMPAT_NOT_SUPPORTED_ON_DEVICE => 804u32,
            CUresult::CUDA_ERROR_STREAM_CAPTURE_UNSUPPORTED => 900u32,
            CUresult::CUDA_ERROR_STREAM_CAPTURE_INVALIDATED => 901u32,
            CUresult::CUDA_ERROR_STREAM_CAPTURE_MERGE => 902u32,
            CUresult::CUDA_ERROR_STREAM_CAPTURE_UNMATCHED => 903u32,
            CUresult::CUDA_ERROR_STREAM_CAPTURE_UNJOINED => 904u32,
            CUresult::CUDA_ERROR_STREAM_CAPTURE_ISOLATION => 905u32,
            CUresult::CUDA_ERROR_STREAM_CAPTURE_IMPLICIT => 906u32,
            CUresult::CUDA_ERROR_CAPTURED_EVENT => 907u32,
            CUresult::CUDA_ERROR_STREAM_CAPTURE_WRONG_THREAD => 908u32,
            CUresult::CUDA_ERROR_TIMEOUT => 909u32,
            CUresult::CUDA_ERROR_GRAPH_EXEC_UPDATE_FAILURE => 910u32,
            CUresult::CUDA_ERROR_UNKNOWN => 999u32,
            }),
    {
        match self {
            CUresult::CUDA_SUCCESS => 0u32,
            CUresult::CUDA_ERROR_INVALID_VALUE => 1u32,
            CUresult::CUDA_ERROR_OUT_OF_MEMORY => 2u32,
            CUresult::CUDA_ERROR_NOT_INITIALIZED => 3u32,
            CUresult::CUDA_ERROR_DEINITIALIZED => 4u32,
            CUresult::CUDA_ERROR_PROFILER_DISABLED => 5u32,
            CUresult::CUDA_ERROR_PROFILER_NOT_INITIALIZED => 6u32,
            CUresult::CUDA_ERROR_PROFILER_ALREADY_STARTED => 7u32,
            CUresult::CUDA_ERROR_PROFILER_ALREADY_STOPPED => 8u32,
            CUresult::CUDA_ERROR_NO_DEVICE => 100u32,
            CUresult::CUDA_ERROR_INVALID_DEVICE => 101u32,
            CUresult::CUDA_ERROR_INVALID_IMAGE => 200u32,
            CUresult::CUDA_ERROR_INVALID_CONTEXT => 201u32,
            CUresult::CUDA_ERROR_CONTEXT_ALREADY_CURRENT => 202u32,
            CUresult::CUDA_ERROR_MAP_FAILED => 205u32,
            CUresult::CUDA_ERROR_UNMAP_FAILED => 206u32,
            CUresult::CUDA_ERROR_ARRAY_IS_MAPPED => 207u32,
            CUresult::CUDA_ERROR_ALREADY_MAPPED => 208u32,
            CUresult::CUDA_ERROR_NO_BINARY_FOR_GPU => 209u32,
            CUresult::CUDA_ERROR_ALREADY_ACQUIRED => 210u32,
            CUresult::CUDA_ERROR_NOT_MAPPED => 211u32,
            CUresult::CUDA_ERROR_NOT_MAPPED_AS_ARRAY => 212u32,
            CUresult::CUDA_ERROR_NOT_MAPPED_AS_POINTER => 213u32,
            CUresult::CUDA_ERROR_ECC_UNCORRECTABLE => 214u32,
            CUresult::CUDA_ERROR_UNSUPPORTED_LIMIT => 215u32,
            CUresult::CUDA_ERROR_CONTEXT_ALREADY_IN_USE => 216u32,
            CUresult::CUDA_ERROR_PEER_ACCESS_UNSUPPORTED => 217u32,
            CUresult::CUDA_ERROR_INVALID_PTX => 218u32,
            CUresult::CUDA_ERROR_INVALID_GRAPHICS_CONTEXT => 219u32,
            CUresult::CUDA_ERROR_NVLINK_UNCORRECTABLE => 220u32,
            CUresult::CUDA_ERROR_JIT_COMPILER_NOT_FOUND => 221u32,
            CUresult::CUDA_ERROR_INVALID_SOURCE => 300u32,
            CUresult::CUDA_ERROR_FILE_NOT_FOUND => 301u32,
            CUresult::CUDA_ERROR_SHARED_OBJECT_SYMBOL_NOT_FOUND => 302u32,
            CUresult::CUDA_ERROR_SHARED_OBJECT_INIT_FAILED => 303u32,
            CUresult::CUDA_ERROR_OPERATING_SYSTEM => 304u32,
            CUresult::CUDA_ERROR_INVALID_HANDLE => 400u32,
            CUresult::CUDA_ERROR_ILLEGAL_STATE => 401u32,
            CUresult::CUDA_ERROR_NOT_FOUND => 500u32,
            CUresult::CUDA_ERROR_NOT_READY => 600u32,
            CUresult::CUDA_ERROR_ILLEGAL_ADDRESS => 700u32,
            CUresult::CUDA_ERROR_LAUNCH_OUT_OF_RESOURCES => 701u32,
            CUresult::CUDA_ERROR_LAUNCH_TIMEOUT => 702u32,
            CUresult::CUDA_ERROR_LAUNCH_INCOMPATIBLE_TEXTURING => 703u32,
            CUresult::CUDA_ERROR_PEER_ACCESS_ALREADY_ENABLED => 704u32,
            CUresult::CUDA_ERROR_PEER_ACCESS_NOT_ENABLED => 705u32,
            CUresult::CUDA_ERROR_PRIMARY_CONTEXT_ACTIVE => 708u32,
            CUresult::CUDA_ERROR_CONTEXT_IS_DESTROYED => 709u32,
            CUresult::CUDA_ERROR_ASSERT => 710u32,
            CUresult::CUDA_ERROR_TOO_MANY_PEERS => 711u32,
            CUresult::CUDA_ERROR_HOST_MEMORY_ALREADY_REGISTERED => 712u32,
            CUresult::CUDA_ERROR_HOST_MEMORY_NOT_REGISTERED => 713u32,
            CUresult::CUDA_ERROR_HARDWARE_STACK_ERROR => 714u32,
            CUresult::CUDA_ERROR_ILLEGAL_INSTRUCTION => 715u32,
            CUresult::CUDA_ERROR_MISALIGNED_ADDRESS => 716u32,
            CUresult::CUDA_ERROR_INVALID_ADDRESS_SPACE => 717u32,
            CUresult::CUDA_ERROR_INVALID_PC => 718u32,
            CUresult::CUDA_ERROR_LAUNCH_FAILED => 719u32,
            CUresult::CUDA_ERROR_COOPERATIVE_LAUNCH_TOO_LARGE => 720u32,
            CUresult::CUDA_ERROR_NOT_PERMITTED => 800u32,
            CUresult::CUDA_ERROR_NOT_SUPPORTED => 801u32,
            CUresult::CUDA_ERROR_SYSTEM_NOT_READY => 802u32,
            CUresult::CUDA_ERROR_SYSTEM_DRIVER_MISMATCH => 803u32,
            CUresult::CUDA_ERROR_COMPAT_NOT_SUPPORTED_ON_DEVICE => 804u32,
            CUresult::CUDA_ERROR_STREAM_CAPTURE_UNSUPPORTED => 900u32,
            CUresult::CUDA_ERROR_STREAM_CAPTURE_INVALIDATED => 901u32,
            CUresult::CUDA_ERROR_STREAM_CAPTURE_MERGE => 902u32,
            CUresult::CUDA_ERROR_STREAM_CAPTURE_UNMATCHED => 903u32,
            CUresult::CUDA_ERROR_STREAM_CAPTURE_UNJOINED => 904u32,
            CUresult::CUDA_ERROR_STREAM_CAPTURE_ISOLATION => 905u32,
            CUresult::CUDA_ERROR_STREAM_CAPTURE_IMPLICIT => 906u32,
            CUresult::CUDA_ERROR_CAPTURED_EVENT => 907u32,
            CUresult::CUDA_ERROR_STREAM_CAPTURE_WRONG_THREAD => 908u32,
            CUresult::CUDA_ERROR_TIMEOUT => 909u32,
            CUresult::CUDA_ERROR_GRAPH_EXEC_UPDATE_FAILURE => 910u32,
            CUresult::CUDA_ERROR_UNKNOWN => 999u32,
        }
    }

    /// Turns a driver status into a result: success becomes `Ok`, every
    /// other status becomes the error carrying its numeric code.
    pub fn to_result(self) -> (r: CudaResult<()>)
        ensures
            self == CUresult::CUDA_SUCCESS <==> r is Ok,
            self != CUresult::CUDA_SUCCESS ==> r == Err::<(), CudaErrorKind>(
                CudaErrorKind { code: self.code() },
            ),
    {
        match self {
            CUresult::CUDA_SUCCESS => Ok(()),
            _ => Err(CudaErrorKind { code: self.code() }),
        }
    }
}

/// A type-erased record of a device allocation held by the CUDA cache: the
/// device pointer value and the node identifying its slot.
#[derive(Debug, Clone, Copy, PartialEq, Eq, Structural)]
pub struct RawCUBuf {
    /// The device pointer value.
    pub ptr: u64,
    /// The node identifying the cached slot.
    pub node: Node,
}

impl RawCUBuf {
    /// Records a device allocation under its node.
    pub fn new(ptr: u64, node: Node) -> (r: RawCUBuf)
        ensures
            r == (RawCUBuf { ptr, node }),
    {
        RawCUBuf { ptr, node }
    }
}

} // verus!
