//! Choosing an adapter and reporting what the backend can do.

use crate::error::{error_is, unsupported_config, BackendError, BackendErrorKind};
use crate::text::{decimal, size_text};
use crate::types::{Codec, DecodeOutputMode};
use vstd::prelude::*;
use vstd::string::*;

verus! {

#[derive(Debug, Clone)]
pub struct VulkanAdapterReport {
    pub index: usize,
    pub name: String,
    pub vendor_id: u32,
    pub device_id: u32,
    pub supports_decoding: bool,
    pub supports_encoding: bool,
}

impl VulkanAdapterReport {
    /// The adapter does what is required.
    pub open spec fn suits(self, decode: bool, encode: bool) -> bool {
        (!decode || self.supports_decoding) && (!encode || self.supports_encoding)
    }
}

/// The first adapter from `from` on that does what is required.
pub open spec fn first_suitable(
    adapters: Seq<VulkanAdapterReport>,
    decode: bool,
    encode: bool,
    from: int,
) -> int
    decreases adapters.len() - from,
{
    if from >= adapters.len() {
        adapters.len() as int
    } else if adapters[from].suits(decode, encode) {
        from
    } else {
        first_suitable(adapters, decode, encode, from + 1)
    }
}

pub open spec fn nothing_suitable(decode: bool, encode: bool) -> Seq<char> {
    if decode && encode {
        "no Vulkan adapter supports both decode and encode for direct backend"@
    } else if decode {
        "no Vulkan adapter supports decode for direct backend"@
    } else if encode {
        "no Vulkan adapter supports encode for direct backend"@
    } else {
        "no Vulkan adapter is available for direct backend"@
    }
}

pub open spec fn named_adapter(index: usize, name: Seq<char>) -> Seq<char> {
    "Vulkan adapter index "@ + decimal(index as nat) + " ("@ + name + ")"@
}

/// The adapter to use, or why there is none. A given index is taken only if the
/// adapter there does what is required.
pub open spec fn chosen_adapter(
    adapters: Seq<VulkanAdapterReport>,
    decode: bool,
    encode: bool,
    wanted: Option<usize>,
) -> Result<usize, Seq<char>> {
    match wanted {
        Some(index) => if index >= adapters.len() {
            Err("Vulkan adapter index "@ + decimal(index as nat) + " is not available"@)
        } else if decode && !adapters[index as int].supports_decoding {
            Err(
                named_adapter(index, adapters[index as int].name@)
                    + " does not support decode"@,
            )
        } else if encode && !adapters[index as int].supports_encoding {
            Err(
                named_adapter(index, adapters[index as int].name@)
                    + " does not support encode"@,
            )
        } else {
            Ok(index)
        },
        None => if first_suitable(adapters, decode, encode, 0) < adapters.len() {
            Ok(first_suitable(adapters, decode, encode, 0) as usize)
        } else {
            Err(nothing_suitable(decode, encode))
        },
    }
}

/// An adapter that is chosen exists and does what is required.
pub proof fn law_chosen_adapter_suits(
    adapters: Seq<VulkanAdapterReport>,
    decode: bool,
    encode: bool,
    wanted: Option<usize>,
)
    requires
        chosen_adapter(adapters, decode, encode, wanted) is Ok,
        adapters.len() <= usize::MAX,
    ensures
        chosen_adapter(adapters, decode, encode, wanted)->Ok_0 < adapters.len(),
        adapters[chosen_adapter(adapters, decode, encode, wanted)->Ok_0 as int].suits(
            decode,
            encode,
        ),
{
    lemma_first_suitable(adapters, decode, encode, 0);
}

proof fn lemma_first_suitable(
    adapters: Seq<VulkanAdapterReport>,
    decode: bool,
    encode: bool,
    from: int,
)
    requires
        0 <= from,
    ensures
        first_suitable(adapters, decode, encode, from) < adapters.len() ==> 0 <= first_suitable(
            adapters,
            decode,
            encode,
            from,
        ) && adapters[first_suitable(adapters, decode, encode, from)].suits(decode, encode),
    decreases adapters.len() - from,
{
    if from < adapters.len() && !adapters[from].suits(decode, encode) {
        lemma_first_suitable(adapters, decode, encode, from + 1);
    }
}

pub fn select_vulkan_adapter(
    adapters: &Vec<VulkanAdapterReport>,
    require_decode: bool,
    require_encode: bool,
    adapter_index: Option<usize>,
) -> (r: Result<usize, BackendError>)
    ensures
        match chosen_adapter(adapters@, require_decode, require_encode, adapter_index) {
            Ok(index) => r matches Ok(i) && i == index,
            Err(e) => r matches Err(m) && error_is(m, BackendErrorKind::UnsupportedConfig, e),
        },
{
    if let Some(index) = adapter_index {
        let start = String::from_str("Vulkan adapter index ").concat(size_text(index).as_str());
        if index >= adapters.len() {
            return Err(BackendError::UnsupportedConfig(start.concat(" is not available")));
        }
        let adapter = &adapters[index];
        if require_decode && !adapter.supports_decoding {
            return Err(
                BackendError::UnsupportedConfig(
                    start.concat(" (").concat(adapter.name.as_str()).concat(")").concat(
                        " does not support decode",
                    ),
                ),
            );
        }
        if require_encode && !adapter.supports_encoding {
            return Err(
                BackendError::UnsupportedConfig(
                    start.concat(" (").concat(adapter.name.as_str()).concat(")").concat(
                        " does not support encode",
                    ),
                ),
            );
        }
        return Ok(index);
    }
    let mut i: usize = 0;
    while i < adapters.len()
        invariant
            i <= adapters.len(),
            adapter_index is None,
            first_suitable(adapters@, require_decode, require_encode, 0) == first_suitable(
                adapters@,
                require_decode,
                require_encode,
                i as int,
            ),
        decreases adapters.len() - i,
    {
        let adapter = &adapters[i];
        if (!require_decode || adapter.supports_decoding) && (!require_encode
            || adapter.supports_encoding) {
            return Ok(i);
        }
        i = i + 1;
    }
    if require_decode && require_encode {
        Err(
            unsupported_config(
                "no Vulkan adapter supports both decode and encode for direct backend",
            ),
        )
    } else if require_decode {
        Err(unsupported_config("no Vulkan adapter supports decode for direct backend"))
    } else if require_encode {
        Err(unsupported_config("no Vulkan adapter supports encode for direct backend"))
    } else {
        Err(unsupported_config("no Vulkan adapter is available for direct backend"))
    }
}

/// Whether any adapter decodes, and whether any encodes.
pub fn probe_vulkan_support(adapters: &Vec<VulkanAdapterReport>) -> (r: (bool, bool))
    ensures
        r.0 == exists|i: int|
            0 <= i < adapters@.len() && (#[trigger] adapters@[i]).supports_decoding,
        r.1 == exists|i: int|
            0 <= i < adapters@.len() && (#[trigger] adapters@[i]).supports_encoding,
{
    let mut decode: bool = false;
    let mut encode: bool = false;
    let mut i: usize = 0;
    while i < adapters.len()
        invariant
            i <= adapters.len(),
            decode == exists|k: int| 0 <= k < i && (#[trigger] adapters@[k]).supports_decoding,
            encode == exists|k: int| 0 <= k < i && (#[trigger] adapters@[k]).supports_encoding,
        decreases adapters.len() - i,
    {
        let ghost here = adapters@[i as int];
        decode = decode || adapters[i].supports_decoding;
        encode = encode || adapters[i].supports_encoding;
        i = i + 1;
    }
    (decode, encode)
}

/// What the backend offers for a codec on this machine.
#[derive(Debug, PartialEq, Eq)]
pub struct VulkanCapabilityReport {
    pub codec: Codec,
    pub decode_supported: bool,
    pub encode_supported: bool,
    pub hardware_acceleration: bool,
    pub decode_output_modes: Vec<DecodeOutputMode>,
}

/// What the backend offers, given whether any adapter decodes and encodes H.264.
pub fn vulkan_capability_report(
    codec: Codec,
    decode_h264_supported: bool,
    encode_h264_supported: bool,
) -> (r: VulkanCapabilityReport)
    ensures
        r.codec == codec,
        r.decode_supported == (codec == Codec::H264 && decode_h264_supported),
        r.encode_supported == (codec == Codec::H264 && encode_h264_supported),
        r.hardware_acceleration == (r.decode_supported || r.encode_supported),
        r.decode_output_modes@ == (if r.decode_supported {
            seq![DecodeOutputMode::Metadata, DecodeOutputMode::Nv12, DecodeOutputMode::Rgb24]
        } else {
            Seq::empty()
        }),
        codec != Codec::H264 ==> !r.hardware_acceleration,
{
    let supports_h264: bool = match codec {
        Codec::H264 => true,
        _ => false,
    };
    let decode_supported: bool = supports_h264 && decode_h264_supported;
    let encode_supported: bool = supports_h264 && encode_h264_supported;
    let mut modes: Vec<DecodeOutputMode> = Vec::new();
    if decode_supported {
        modes.push(DecodeOutputMode::Metadata);
        modes.push(DecodeOutputMode::Nv12);
        modes.push(DecodeOutputMode::Rgb24);
    }
    assert(modes@ =~= (if decode_supported {
        seq![DecodeOutputMode::Metadata, DecodeOutputMode::Nv12, DecodeOutputMode::Rgb24]
    } else {
        Seq::empty()
    }));
    VulkanCapabilityReport {
        codec,
        decode_supported,
        encode_supported,
        hardware_acceleration: decode_supported || encode_supported,
        decode_output_modes: modes,
    }
}

} // verus!
