//! Audio capture: device listing, channel mixing, the order of conditioning
//! and the conversion to the canonical sample rate.
//!
//! Opening devices and running streams is left to the caller; arithmetic on
//! samples is handed in as functions.

use vstd::prelude::*;
use vstd::arithmetic::div_mod::{lemma_multiply_divide_lt, lemma_remainder_lower};
use vstd::arithmetic::mul::{lemma_mul_inequality, lemma_mul_is_distributive_add_other_way};
use crate::audio::window::{lemma_window_bounds, padded_at, padded_window, window_count};
use crate::text::{first_match, opt_text, position_of, texts};

verus! {

/// The sample rate of every buffer that leaves capture, in hertz.
pub const TARGET_RATE: u32 = 16000;

/// Input frames per call of the converter.
pub const RESAMPLER_CHUNK: usize = 1024;

/// Sub-chunks per chunk of the converter.
pub const RESAMPLER_SUB_CHUNKS: usize = 2;

/// Why capture refused or failed.
#[derive(Debug, Clone, Copy, PartialEq, Eq, Structural)]
pub enum CaptureError {
    /// No input device exists, or the named one was not found.
    DeviceUnavailable,
    /// The machine has no input device to list.
    NoDevicesFound,
    /// Stop was asked for while nothing was being recorded.
    NotRecording,
    /// The input stream could not be built or started.
    StreamFailed,
    /// The converter failed on a chunk.
    ResampleFailed,
}

/// The device list for the given names: each name with a mark that tells
/// whether it is the default device's.
pub open spec fn device_list(names: Seq<Seq<char>>, default_name: Option<Seq<char>>) -> Seq<
    (Seq<char>, bool),
> {
    names.map_values(|name: Seq<char>| (name, default_name == Some(name)))
}

/// The view of a device list.
pub open spec fn device_views(devices: Seq<(String, bool)>) -> Seq<(Seq<char>, bool)> {
    devices.map_values(|device: (String, bool)| (device.0@, device.1))
}

/// Frame `i` of interleaved samples: one sample of each channel.
pub open spec fn frame<T>(data: Seq<T>, channels: int, i: int) -> Seq<T> {
    data.subrange(i * channels, (i + 1) * channels)
}

/// `value` is a possible result of `average` for the samples `samples`.
pub open spec fn averages<T, F: Fn(Vec<T>) -> T>(average: F, samples: Seq<T>, value: T) -> bool {
    exists|f: Vec<T>| f@ == samples && call_ensures(average, (f,), value)
}

/// `mono` is a downmix of `data`: with more than one channel, one sample
/// per complete frame, each the average of all samples of its frame; the
/// data itself otherwise.
pub open spec fn is_downmix<T, F: Fn(Vec<T>) -> T>(
    average: F,
    data: Seq<T>,
    channels: int,
    mono: Seq<T>,
) -> bool {
    if channels <= 1 {
        mono == data
    } else {
        &&& mono.len() == data.len() / (channels as nat)
        &&& forall|i: int|
            0 <= i < mono.len() ==> averages(average, frame(data, channels, i), #[trigger] mono[i])
    }
}

/// Mixes interleaved samples down to one channel by averaging each frame
/// over all of its channels. Samples after the last complete frame are
/// dropped.
pub fn downmix<T: Copy, F: Fn(Vec<T>) -> T>(data: &[T], channels: u16, average: &F) -> (mono: Vec<T>)
    requires
        channels > 1 ==> forall|f: Vec<T>| f@.len() == channels ==> call_requires(*average, (f,)),
    ensures
        is_downmix(*average, data@, channels as int, mono@),
{
    let mut mono: Vec<T> = Vec::new();
    let len = data.len();
    if channels <= 1 {
        let mut j: usize = 0;
        while j < len
            invariant
                j <= len,
                len == data@.len(),
                mono@ == data@.take(j as int),
            decreases len - j,
        {
            mono.push(data[j]);
            assert(mono@ =~= data@.take(j + 1));
            j += 1;
        }
        assert(data@.take(len as int) =~= data@);
        return mono;
    }
    let width = channels as usize;
    let frames = len / width;
    let mut i: usize = 0;
    while i < frames
        invariant
            width == channels,
            width > 1,
            len == data@.len(),
            frames == len / width,
            i <= frames,
            mono@.len() == i,
            forall|f: Vec<T>| f@.len() == channels ==> call_requires(*average, (f,)),
            forall|k: int|
                0 <= k < i ==> averages(
                    *average,
                    frame(data@, channels as int, k),
                    #[trigger] mono@[k],
                ),
        decreases frames - i,
    {
        proof {
            lemma_window_bounds(len as int, width as int, i as int);
        }
        let start = i * width;
        let mut samples: Vec<T> = Vec::new();
        let mut c: usize = 0;
        while c < width
            invariant
                c <= width,
                start + width <= len,
                len == data@.len(),
                samples@ == data@.subrange(start as int, start + c),
            decreases width - c,
        {
            samples.push(data[start + c]);
            assert(samples@ =~= data@.subrange(start as int, start + c + 1));
            c += 1;
        }
        assert(samples@ == frame(data@, channels as int, i as int));
        let value = average(samples);
        let ghost before = mono@;
        mono.push(value);
        assert forall|k: int| 0 <= k < i + 1 implies averages(
            *average,
            frame(data@, channels as int, k),
            #[trigger] mono@[k],
        ) by {
            if k < i {
                assert(mono@[k] == before[k]);
            }
        }
        i += 1;
    }
    mono
}

/// How a recording reaches the target rate.
#[derive(Debug, Clone, Copy, PartialEq, Eq, Structural)]
pub enum Resampling {
    /// The device already runs at the target rate.
    NotNeeded,
    /// The converter built when the device was opened.
    Converter,
    /// Plain decimation, because no converter could be built.
    Decimation,
}

/// One step of conditioning a finished recording.
#[derive(Debug, Clone, Copy, PartialEq, Eq, Structural)]
pub enum ConditioningStep {
    /// Subtract the mean of the samples from each.
    RemoveDcOffset,
    /// Scale so that the peak reaches the normalization target, unless the
    /// peak is too low to be more than noise.
    NormalizePeak,
    /// Convert to the target rate with the converter.
    Convert,
    /// Convert to the target rate by decimation.
    Decimate,
}

/// The steps applied to a finished recording, in order.
pub open spec fn conditioning(resampling: Resampling) -> Seq<ConditioningStep> {
    let always = seq![ConditioningStep::RemoveDcOffset, ConditioningStep::NormalizePeak];
    match resampling {
        Resampling::NotNeeded => always,
        Resampling::Converter => always.push(ConditioningStep::Convert),
        Resampling::Decimation => always.push(ConditioningStep::Decimate),
    }
}

/// The steps to apply to a finished recording, in order.
pub fn conditioning_steps(resampling: Resampling) -> (steps: Vec<ConditioningStep>)
    ensures
        steps@ == conditioning(resampling),
{
    let mut steps: Vec<ConditioningStep> = Vec::new();
    steps.push(ConditioningStep::RemoveDcOffset);
    steps.push(ConditioningStep::NormalizePeak);
    match resampling {
        Resampling::NotNeeded => {},
        Resampling::Converter => {
            steps.push(ConditioningStep::Convert);
        },
        Resampling::Decimation => {
            steps.push(ConditioningStep::Decimate);
        },
    }
    assert(steps@ =~= conditioning(resampling));
    steps
}

/// Every recording leaves conditioning at the target rate: its steps end
/// with a conversion exactly when the device runs at another rate, and
/// hold no conversion otherwise.
pub proof fn law_recordings_reach_the_target_rate(native_rate: u32, converter_built: bool)
    ensures
        ({
            let resampling = if native_rate == TARGET_RATE {
                Resampling::NotNeeded
            } else if converter_built {
                Resampling::Converter
            } else {
                Resampling::Decimation
            };
            let steps = conditioning(resampling);
            let converts = |step: ConditioningStep|
                step == ConditioningStep::Convert || step == ConditioningStep::Decimate;
            &&& steps[0] == ConditioningStep::RemoveDcOffset
            &&& steps[1] == ConditioningStep::NormalizePeak
            &&& native_rate != TARGET_RATE <==> converts(steps.last())
            &&& forall|i: int| 0 <= i < steps.len() - 1 ==> !converts(#[trigger] steps[i])
        }),
{
}

/// What the sample-rate converter is built with.
#[derive(Debug, Clone, Copy, PartialEq, Eq, Structural)]
pub struct ResamplerParams {
    pub input_rate: usize,
    pub output_rate: usize,
    pub chunk_size: usize,
    pub sub_chunks: usize,
    pub channels: usize,
}

/// The converter that a device running at `native_rate` needs: none at the
/// target rate, else one from the native rate to the target rate for a
/// single channel.
pub fn resampler_params(native_rate: u32) -> (params: Option<ResamplerParams>)
    ensures
        native_rate == TARGET_RATE <==> params is None,
        params matches Some(p) ==> p == (ResamplerParams {
            input_rate: native_rate as usize,
            output_rate: TARGET_RATE as usize,
            chunk_size: RESAMPLER_CHUNK,
            sub_chunks: RESAMPLER_SUB_CHUNKS,
            channels: 1,
        }),
{
    if native_rate == TARGET_RATE {
        None
    } else {
        Some(
            ResamplerParams {
                input_rate: native_rate as usize,
                output_rate: TARGET_RATE as usize,
                chunk_size: RESAMPLER_CHUNK,
                sub_chunks: RESAMPLER_SUB_CHUNKS,
                channels: 1,
            },
        )
    }
}

/// How a recording from a device at `native_rate` reaches the target rate,
/// given whether the converter could be built.
pub fn resampling_for(native_rate: u32, converter_built: bool) -> (resampling: Resampling)
    ensures
        resampling == if native_rate == TARGET_RATE {
            Resampling::NotNeeded
        } else if converter_built {
            Resampling::Converter
        } else {
            Resampling::Decimation
        },
{
    if native_rate == TARGET_RATE {
        Resampling::NotNeeded
    } else if converter_built {
        Resampling::Converter
    } else {
        Resampling::Decimation
    }
}

/// A recording taken at `from_rate`, brought to `to_rate` by keeping, for
/// each output position, the input sample at the same point in time.
pub open spec fn decimated<T>(input: Seq<T>, from_rate: int, to_rate: int) -> Seq<T> {
    Seq::new((input.len() * to_rate / from_rate) as nat, |i: int| input[i * from_rate / to_rate])
}

/// Each output position of a decimation reads inside the input.
pub proof fn lemma_decimation_index(len: int, from_rate: int, to_rate: int, i: int)
    requires
        0 <= len,
        0 < from_rate,
        0 < to_rate,
        0 <= i < len * to_rate / from_rate,
    ensures
        0 <= i * from_rate / to_rate < len,
        0 <= i * from_rate < len * to_rate,
{
    let n = len * to_rate / from_rate;
    assert(0 <= len * to_rate) by (nonlinear_arith)
        requires
            0 <= len,
            0 < to_rate,
    ;
    lemma_remainder_lower(len * to_rate, from_rate);
    lemma_mul_inequality(i + 1, n, from_rate);
    lemma_mul_is_distributive_add_other_way(from_rate, i, 1);
    assert(0 <= i * from_rate) by (nonlinear_arith)
        requires
            0 <= i,
            0 < from_rate,
    ;
    assert(len * to_rate == to_rate * len) by (nonlinear_arith);
    lemma_multiply_divide_lt(i * from_rate, to_rate, len);
    vstd::arithmetic::div_mod::lemma_div_pos_is_pos(i * from_rate, to_rate);
}

/// Brings a recording from `from_rate` to `to_rate` without a converter.
pub fn decimate<T: Copy>(input: &[T], from_rate: u32, to_rate: u32) -> (out: Vec<T>)
    requires
        from_rate > 0,
        to_rate > 0,
        input@.len() * to_rate / (from_rate as int) <= usize::MAX,
    ensures
        out@ == decimated(input@, from_rate as int, to_rate as int),
{
    let len = input.len();
    assert(len * to_rate <= 0xffff_ffff_ffff_ffff * 0xffff_ffff) by (nonlinear_arith)
        requires
            0 <= len <= 0xffff_ffff_ffff_ffff,
            0 <= to_rate <= 0xffff_ffff,
    ;
    let n = ((len as u128) * (to_rate as u128) / (from_rate as u128)) as usize;
    let mut out: Vec<T> = Vec::new();
    let mut i: usize = 0;
    while i < n
        invariant
            from_rate > 0,
            to_rate > 0,
            len == input@.len(),
            n == len * to_rate / (from_rate as int),
            i <= n,
            out@ == decimated(input@, from_rate as int, to_rate as int).take(i as int),
        decreases n - i,
    {
        proof {
            lemma_decimation_index(len as int, from_rate as int, to_rate as int, i as int);
            assert(i * from_rate < 0xffff_ffff_ffff_ffff * 0xffff_ffff) by (nonlinear_arith)
                requires
                    i * from_rate < len * to_rate,
                    0 <= len <= 0xffff_ffff_ffff_ffff,
                    0 <= to_rate <= 0xffff_ffff,
            ;
        }
        let index = ((i as u128) * (from_rate as u128) / (to_rate as u128)) as usize;
        out.push(input[index]);
        assert(out@ =~= decimated(input@, from_rate as int, to_rate as int).take(i + 1));
        i += 1;
    }
    assert(decimated(input@, from_rate as int, to_rate as int).take(n as int) =~= decimated(
        input@,
        from_rate as int,
        to_rate as int,
    ));
    out
}

/// The outputs of the converter for the chunks of a recording, joined in
/// order. A chunk without output contributes nothing.
pub open spec fn joined_chunks<T>(outputs: Seq<Option<Vec<T>>>) -> Seq<T>
    decreases outputs.len(),
{
    if outputs.len() == 0 {
        Seq::empty()
    } else {
        joined_chunks(outputs.drop_last()) + match outputs.last() {
            Some(chunk) => chunk@,
            None => Seq::empty(),
        }
    }
}

/// `output` is a possible result of `process` for the chunk `samples`.
pub open spec fn produces<T, F: Fn(Vec<T>) -> Option<Vec<T>>>(
    process: F,
    samples: Seq<T>,
    output: Option<Vec<T>>,
) -> bool {
    exists|chunk: Vec<T>| chunk@ == samples && call_ensures(process, (chunk,), output)
}

/// `outputs` is a possible sequence of results of `process` for the first
/// chunks of `input`, each chunk padded with `silence` to `chunk_size`
/// samples.
pub open spec fn is_conversion<T, F: Fn(Vec<T>) -> Option<Vec<T>>>(
    process: F,
    input: Seq<T>,
    chunk_size: int,
    silence: T,
    outputs: Seq<Option<Vec<T>>>,
) -> bool {
    forall|k: int|
        0 <= k < outputs.len() ==> produces(
            process,
            padded_at(input, k * chunk_size, chunk_size, silence),
            #[trigger] outputs[k],
        )
}

/// Converts a recording chunk by chunk: the input is cut into chunks of
/// `chunk_size` samples, the last one padded with `silence`, each chunk goes
/// through `process`, and the outputs are joined in order. The first chunk
/// on which `process` fails ends the conversion with an error.
pub fn resample_chunks<T: Copy, F: Fn(Vec<T>) -> Option<Vec<T>>>(
    input: &[T],
    chunk_size: usize,
    silence: T,
    process: &F,
) -> (result: Result<Vec<T>, CaptureError>)
    requires
        chunk_size > 0,
        forall|chunk: Vec<T>| chunk@.len() == chunk_size ==> call_requires(*process, (chunk,)),
    ensures
        result matches Ok(out) ==> exists|outputs: Seq<Option<Vec<T>>>|
            is_conversion(*process, input@, chunk_size as int, silence, outputs) && outputs.len()
                == window_count(input@.len() as int, chunk_size as int) && (forall|k: int|
                0 <= k < outputs.len() ==> (#[trigger] outputs[k]) is Some) && out@
                == joined_chunks(outputs),
        result matches Err(e) ==> e == CaptureError::ResampleFailed && exists|
            outputs: Seq<Option<Vec<T>>>,
        |
            is_conversion(*process, input@, chunk_size as int, silence, outputs) && 0
                < outputs.len() <= window_count(input@.len() as int, chunk_size as int)
                && outputs.last() is None,
{
    let len = input.len();
    let full = len / chunk_size;
    proof {
        lemma_window_bounds(len as int, chunk_size as int, full as int);
    }
    let count = if len % chunk_size > 0 {
        full + 1
    } else {
        full
    };
    let ghost mut outputs: Seq<Option<Vec<T>>> = Seq::empty();
    let mut out: Vec<T> = Vec::new();
    let mut k: usize = 0;
    while k < count
        invariant
            chunk_size > 0,
            len == input@.len(),
            full == len / chunk_size,
            count == window_count(len as int, chunk_size as int),
            k <= count,
            forall|chunk: Vec<T>| chunk@.len() == chunk_size ==> call_requires(*process, (chunk,)),
            outputs.len() == k,
            is_conversion(*process, input@, chunk_size as int, silence, outputs),
            forall|j: int| 0 <= j < outputs.len() ==> (#[trigger] outputs[j]) is Some,
            out@ == joined_chunks(outputs),
        decreases count - k,
    {
        proof {
            lemma_window_bounds(len as int, chunk_size as int, k as int);
        }
        let chunk = padded_window(input, k * chunk_size, chunk_size, silence);
        let ghost chunk_view = chunk@;
        let produced = process(chunk);
        let ghost longer = outputs.push(produced);
        proof {
            assert(longer.drop_last() =~= outputs);
            assert(produces(*process, chunk_view, produced));
            assert forall|j: int| 0 <= j < longer.len() implies produces(
                *process,
                padded_at(input@, j * chunk_size, chunk_size as int, silence),
                #[trigger] longer[j],
            ) by {
                if j < k {
                    assert(longer[j] == outputs[j]);
                }
            }
            assert(is_conversion(*process, input@, chunk_size as int, silence, longer));
        }
        match produced {
            None => {
                proof {
                    outputs = longer;
                }
                return Err(CaptureError::ResampleFailed);
            },
            Some(samples) => {
                let mut j: usize = 0;
                let ghost before = out@;
                while j < samples.len()
                    invariant
                        j <= samples.len(),
                        out@ == before + samples@.take(j as int),
                    decreases samples.len() - j,
                {
                    out.push(samples[j]);
                    assert(out@ =~= before + samples@.take(j + 1));
                    j += 1;
                }
                proof {
                    assert(samples@.take(samples.len() as int) =~= samples@);
                    outputs = longer;
                }
            },
        }
        k += 1;
    }
    Ok(out)
}

/// Which input device to open.
#[derive(Debug, Clone, Copy, PartialEq, Eq, Structural)]
pub enum DeviceChoice {
    /// The system's default input device.
    Default,
    /// The device at this position of the list of input devices.
    Listed(usize),
}

/// The device that a selector picks: without a name the default device,
/// where there is one; with a name the first listed device that carries it.
pub open spec fn chosen_device(
    names: Seq<Seq<char>>,
    selector: Option<Seq<char>>,
    default_exists: bool,
) -> Result<DeviceChoice, CaptureError> {
    match selector {
        None => if default_exists {
            Ok(DeviceChoice::Default)
        } else {
            Err(CaptureError::DeviceUnavailable)
        },
        Some(name) => match first_match(names, name) {
            Some(i) => Ok(DeviceChoice::Listed(i as usize)),
            None => Err(CaptureError::DeviceUnavailable),
        },
    }
}

/// Picks the input device to open.
pub fn select_device(names: &Vec<String>, selector: &Option<String>, default_exists: bool) -> (choice:
    Result<DeviceChoice, CaptureError>)
    ensures
        choice == chosen_device(texts(names@), opt_text(*selector), default_exists),
{
    match selector {
        None => if default_exists {
            Ok(DeviceChoice::Default)
        } else {
            Err(CaptureError::DeviceUnavailable)
        },
        Some(name) => match position_of(names, name.as_str()) {
            Some(i) => Ok(DeviceChoice::Listed(i)),
            None => Err(CaptureError::DeviceUnavailable),
        },
    }
}

/// An opened input device and what is known of its recording: the device's
/// native configuration, how its recordings reach the target rate, and
/// whether a recording is under way.
#[derive(Debug, Clone, Copy, PartialEq, Eq, Structural)]
pub struct AudioRecorder {
    pub native_rate: u32,
    pub channels: u16,
    pub resampling: Resampling,
    pub recording: bool,
}

impl AudioRecorder {
    /// List all available input devices, the default one marked.
    pub fn list_devices(names: Vec<String>, default_name: Option<String>) -> (result: Result<
        Vec<(String, bool)>,
        CaptureError,
    >)
        ensures
            names@.len() == 0 <==> result is Err,
            result matches Err(e) ==> e == CaptureError::NoDevicesFound,
            result matches Ok(devices) ==> device_views(devices@) == device_list(
                texts(names@),
                opt_text(default_name),
            ),
    {
        if names.len() == 0 {
            return Err(CaptureError::NoDevicesFound);
        }
        let ghost wanted = device_list(texts(names@), opt_text(default_name));
        let mut devices: Vec<(String, bool)> = Vec::new();
        let mut i: usize = 0;
        while i < names.len()
            invariant
                i <= names.len(),
                wanted == device_list(texts(names@), opt_text(default_name)),
                devices@.len() == i,
                device_views(devices@) == wanted.take(i as int),
            decreases names.len() - i,
        {
            let is_default = match &default_name {
                Some(d) => *d == names[i],
                None => false,
            };
            let ghost before = devices@;
            devices.push((names[i].clone(), is_default));
            proof {
                let all = texts(names@);
                assert(all[i as int] == names[i as int]@);
                assert(wanted[i as int] == (all[i as int], opt_text(default_name) == Some(
                    all[i as int],
                )));
                assert(device_views(devices@)[i as int] == wanted[i as int]);
                assert forall|j: int| 0 <= j < i implies device_views(devices@)[j] == wanted[j] by {
                    assert(devices@[j] == before[j]);
                    assert(device_views(before)[j] == wanted.take(i as int)[j]);
                }
            }
            assert(device_views(devices@) =~= wanted.take(i + 1));
            i += 1;
        }
        assert(wanted.take(i as int) =~= wanted);
        Ok(devices)
    }

    /// The recorder for a device just opened at its native configuration,
    /// given whether the converter it needs could be built.
    pub fn new(native_rate: u32, channels: u16, converter_built: bool) -> (recorder: Self)
        ensures
            recorder == (AudioRecorder {
                native_rate,
                channels,
                resampling: if native_rate == TARGET_RATE {
                    Resampling::NotNeeded
                } else if converter_built {
                    Resampling::Converter
                } else {
                    Resampling::Decimation
                },
                recording: false,
            }),
    {
        AudioRecorder {
            native_rate,
            channels,
            resampling: resampling_for(native_rate, converter_built),
            recording: false,
        }
    }

    /// Records the outcome of starting the input stream.
    pub fn start_recording(&mut self, stream_started: bool) -> (result: Result<(), CaptureError>)
        ensures
            *final(self) == (AudioRecorder { recording: stream_started, ..*old(self) }),
            result == if stream_started {
                Ok::<(), CaptureError>(())
            } else {
                Err::<(), CaptureError>(CaptureError::StreamFailed)
            },
    {
        self.recording = stream_started;
        if stream_started {
            Ok(())
        } else {
            Err(CaptureError::StreamFailed)
        }
    }

    /// Ends the recording under way and tells how its buffer is to be
    /// conditioned; without a recording under way this is an error.
    pub fn stop_recording(&mut self) -> (result: Result<Vec<ConditioningStep>, CaptureError>)
        ensures
            *final(self) == (AudioRecorder { recording: false, ..*old(self) }),
            old(self).recording <==> result is Ok,
            result matches Ok(steps) ==> steps@ == conditioning(old(self).resampling),
            result matches Err(e) ==> e == CaptureError::NotRecording,
    {
        if !self.recording {
            return Err(CaptureError::NotRecording);
        }
        self.recording = false;
        Ok(conditioning_steps(self.resampling))
    }

    /// Check if currently recording.
    pub fn is_recording(&self) -> (recording: bool)
        ensures
            recording == self.recording,
    {
        self.recording
    }

    /// The sample rate of the buffers that capture hands out.
    pub fn sample_rate(&self) -> (rate: u32)
        ensures
            rate == TARGET_RATE,
    {
        TARGET_RATE
    }
}

/// What the capture worker is busy with.
#[derive(Debug, Clone, Copy, PartialEq, Eq, Structural)]
pub enum CaptureActivity {
    /// Nothing: the next command can be taken from the queue.
    Waiting,
    /// The input device is being opened.
    Opening,
    /// The input stream is being started.
    Starting,
    /// The worker has shut down.
    Stopped,
}

/// The capture worker's state: the device it has opened, if any, and what
/// it is busy with.
#[derive(Debug, Clone, Copy, PartialEq, Eq, Structural)]
pub struct AudioCapture {
    pub recorder: Option<AudioRecorder>,
    pub activity: CaptureActivity,
}

/// What reaches the capture worker: commands from its queue and the
/// outcomes of the tasks it handed out.
#[derive(Debug)]
pub enum CaptureEvent {
    /// Start recording, from the named device or, without a name, from the
    /// default device. The name matters only while no device is open.
    Start { device: Option<String> },
    Stop,
    /// Asks whether a recording is under way.
    Query,
    /// A shutdown command arrived, or the queue was closed.
    Shutdown,
    DeviceOpened { native_rate: u32, channels: u16, converter_built: bool },
    DeviceUnavailable,
    StreamStarted,
    StreamFailed,
}

/// Mathematical value of a [`CaptureEvent`].
pub enum CaptureEventView {
    Start { device: Option<Seq<char>> },
    Stop,
    Query,
    Shutdown,
    DeviceOpened { native_rate: u32, channels: u16, converter_built: bool },
    DeviceUnavailable,
    StreamStarted,
    StreamFailed,
}

impl View for CaptureEvent {
    type V = CaptureEventView;

    open spec fn view(&self) -> CaptureEventView {
        match *self {
            CaptureEvent::Start { device } => CaptureEventView::Start { device: opt_text(device) },
            CaptureEvent::Stop => CaptureEventView::Stop,
            CaptureEvent::Query => CaptureEventView::Query,
            CaptureEvent::Shutdown => CaptureEventView::Shutdown,
            CaptureEvent::DeviceOpened { native_rate, channels, converter_built } => {
                CaptureEventView::DeviceOpened { native_rate, channels, converter_built }
            },
            CaptureEvent::DeviceUnavailable => CaptureEventView::DeviceUnavailable,
            CaptureEvent::StreamStarted => CaptureEventView::StreamStarted,
            CaptureEvent::StreamFailed => CaptureEventView::StreamFailed,
        }
    }
}

/// What the capture worker's driver is to do next.
#[derive(Debug)]
pub enum CaptureTask {
    /// Nothing: take the next command when the worker waits.
    Nothing,
    /// Open the input device and build the converter it needs.
    OpenDevice { device: Option<String> },
    /// Empty the buffer, then build and start the input stream.
    StartStream,
    /// Release the stream, condition the buffer as `resampling` asks and
    /// answer the stop request with it.
    StopStream { resampling: Resampling },
    /// Answer the stop request with an error.
    RefuseStop { error: CaptureError },
    /// Answer the query.
    ReplyRecording { recording: bool },
    /// Report that recording could not start.
    ReportStartFailed { error: CaptureError },
    /// Leave the processing loop.
    Exit,
}

/// Mathematical value of a [`CaptureTask`].
pub enum CaptureTaskView {
    Nothing,
    OpenDevice { device: Option<Seq<char>> },
    StartStream,
    StopStream { resampling: Resampling },
    RefuseStop { error: CaptureError },
    ReplyRecording { recording: bool },
    ReportStartFailed { error: CaptureError },
    Exit,
}

impl View for CaptureTask {
    type V = CaptureTaskView;

    open spec fn view(&self) -> CaptureTaskView {
        match *self {
            CaptureTask::Nothing => CaptureTaskView::Nothing,
            CaptureTask::OpenDevice { device } => CaptureTaskView::OpenDevice {
                device: opt_text(device),
            },
            CaptureTask::StartStream => CaptureTaskView::StartStream,
            CaptureTask::StopStream { resampling } => CaptureTaskView::StopStream { resampling },
            CaptureTask::RefuseStop { error } => CaptureTaskView::RefuseStop { error },
            CaptureTask::ReplyRecording { recording } => CaptureTaskView::ReplyRecording {
                recording,
            },
            CaptureTask::ReportStartFailed { error } => CaptureTaskView::ReportStartFailed {
                error,
            },
            CaptureTask::Exit => CaptureTaskView::Exit,
        }
    }
}

/// Whether a recording is under way.
pub open spec fn recording_now(capture: AudioCapture) -> bool {
    capture.recorder matches Some(recorder) && recorder.recording
}

/// The recorder with its recording mark set to `recording`.
pub open spec fn marked(recorder: Option<AudioRecorder>, recording: bool) -> Option<
    AudioRecorder,
> {
    match recorder {
        Some(r) => Some(AudioRecorder { recording, ..r }),
        None => None,
    }
}

/// The capture worker's reaction to an event.
///
/// The device is opened on the first start and kept. A start that cannot
/// open the device or start the stream is reported and leaves no recording
/// under way. A stop without a recording under way is refused.
pub open spec fn capture_step(capture: AudioCapture, event: CaptureEventView) -> (
    AudioCapture,
    CaptureTaskView,
) {
    let waiting = |recorder: Option<AudioRecorder>|
        AudioCapture { recorder, activity: CaptureActivity::Waiting };
    match (capture.activity, event) {
        (CaptureActivity::Waiting, CaptureEventView::Start { device }) => match capture.recorder {
            None => (
                AudioCapture { recorder: None, activity: CaptureActivity::Opening },
                CaptureTaskView::OpenDevice { device },
            ),
            Some(_) => (
                AudioCapture { recorder: capture.recorder, activity: CaptureActivity::Starting },
                CaptureTaskView::StartStream,
            ),
        },
        (CaptureActivity::Waiting, CaptureEventView::Stop) => if recording_now(capture) {
            (
                waiting(marked(capture.recorder, false)),
                CaptureTaskView::StopStream { resampling: capture.recorder->Some_0.resampling },
            )
        } else {
            (capture, CaptureTaskView::RefuseStop { error: CaptureError::NotRecording })
        },
        (CaptureActivity::Waiting, CaptureEventView::Query) => (
            capture,
            CaptureTaskView::ReplyRecording { recording: recording_now(capture) },
        ),
        (CaptureActivity::Waiting, CaptureEventView::Shutdown) => (
            AudioCapture { recorder: capture.recorder, activity: CaptureActivity::Stopped },
            CaptureTaskView::Exit,
        ),
        (
            CaptureActivity::Opening,
            CaptureEventView::DeviceOpened { native_rate, channels, converter_built },
        ) => (
            AudioCapture {
                recorder: Some(
                    AudioRecorder {
                        native_rate,
                        channels,
                        resampling: if native_rate == TARGET_RATE {
                            Resampling::NotNeeded
                        } else if converter_built {
                            Resampling::Converter
                        } else {
                            Resampling::Decimation
                        },
                        recording: false,
                    },
                ),
                activity: CaptureActivity::Starting,
            },
            CaptureTaskView::StartStream,
        ),
        (CaptureActivity::Opening, CaptureEventView::DeviceUnavailable) => (
            waiting(None),
            CaptureTaskView::ReportStartFailed { error: CaptureError::DeviceUnavailable },
        ),
        (CaptureActivity::Starting, CaptureEventView::StreamStarted) => (
            waiting(marked(capture.recorder, true)),
            CaptureTaskView::Nothing,
        ),
        (CaptureActivity::Starting, CaptureEventView::StreamFailed) => (
            waiting(marked(capture.recorder, false)),
            CaptureTaskView::ReportStartFailed { error: CaptureError::StreamFailed },
        ),
        _ => (capture, CaptureTaskView::Nothing),
    }
}

impl AudioCapture {
    /// A worker that has opened no device yet.
    pub fn new() -> (capture: Self)
        ensures
            capture == (AudioCapture { recorder: None, activity: CaptureActivity::Waiting }),
    {
        AudioCapture { recorder: None, activity: CaptureActivity::Waiting }
    }

    /// Whether a recording is under way.
    pub fn is_recording(&self) -> (recording: bool)
        ensures
            recording == recording_now(*self),
    {
        match self.recorder {
            Some(recorder) => recorder.recording,
            None => false,
        }
    }

    /// Applies an event and tells the driver what to do next.
    pub fn step(self, event: CaptureEvent) -> (next: (AudioCapture, CaptureTask))
        ensures
            (next.0, next.1@) == capture_step(self, event@),
    {
        match self.activity {
            CaptureActivity::Waiting => match event {
                CaptureEvent::Start { device } => match self.recorder {
                    None => (
                        AudioCapture { recorder: None, activity: CaptureActivity::Opening },
                        CaptureTask::OpenDevice { device },
                    ),
                    Some(_) => (
                        AudioCapture {
                            recorder: self.recorder,
                            activity: CaptureActivity::Starting,
                        },
                        CaptureTask::StartStream,
                    ),
                },
                CaptureEvent::Stop => match self.recorder {
                    Some(recorder) => if recorder.recording {
                        (
                            AudioCapture {
                                recorder: Some(AudioRecorder { recording: false, ..recorder }),
                                activity: CaptureActivity::Waiting,
                            },
                            CaptureTask::StopStream { resampling: recorder.resampling },
                        )
                    } else {
                        (self, CaptureTask::RefuseStop { error: CaptureError::NotRecording })
                    },
                    None => (self, CaptureTask::RefuseStop { error: CaptureError::NotRecording }),
                },
                CaptureEvent::Query => (
                    self,
                    CaptureTask::ReplyRecording { recording: self.is_recording() },
                ),
                CaptureEvent::Shutdown => (
                    AudioCapture { recorder: self.recorder, activity: CaptureActivity::Stopped },
                    CaptureTask::Exit,
                ),
                _ => (self, CaptureTask::Nothing),
            },
            CaptureActivity::Opening => match event {
                CaptureEvent::DeviceOpened { native_rate, channels, converter_built } => (
                    AudioCapture {
                        recorder: Some(AudioRecorder::new(native_rate, channels, converter_built)),
                        activity: CaptureActivity::Starting,
                    },
                    CaptureTask::StartStream,
                ),
                CaptureEvent::DeviceUnavailable => (
                    AudioCapture { recorder: None, activity: CaptureActivity::Waiting },
                    CaptureTask::ReportStartFailed { error: CaptureError::DeviceUnavailable },
                ),
                _ => (self, CaptureTask::Nothing),
            },
            CaptureActivity::Starting => match event {
                CaptureEvent::StreamStarted => (
                    AudioCapture {
                        recorder: match self.recorder {
                            Some(r) => Some(AudioRecorder { recording: true, ..r }),
                            None => None,
                        },
                        activity: CaptureActivity::Waiting,
                    },
                    CaptureTask::Nothing,
                ),
                CaptureEvent::StreamFailed => (
                    AudioCapture {
                        recorder: match self.recorder {
                            Some(r) => Some(AudioRecorder { recording: false, ..r }),
                            None => None,
                        },
                        activity: CaptureActivity::Waiting,
                    },
                    CaptureTask::ReportStartFailed { error: CaptureError::StreamFailed },
                ),
                _ => (self, CaptureTask::Nothing),
            },
            CaptureActivity::Stopped => (self, CaptureTask::Nothing),
        }
    }
}

/// Stop is answered with a buffer exactly when a recording is under way,
/// and afterwards none is; a failed start leaves none under way either.
pub proof fn law_capture_never_stuck(capture: AudioCapture)
    requires
        capture.activity is Waiting,
    ensures
        capture_step(capture, CaptureEventView::Stop).1 is StopStream <==> recording_now(capture),
        capture_step(capture, CaptureEventView::Stop).1 is RefuseStop <==> !recording_now(capture),
        !recording_now(capture_step(capture, CaptureEventView::Stop).0),
        !recording_now(
            capture_step(
                AudioCapture { recorder: capture.recorder, activity: CaptureActivity::Starting },
                CaptureEventView::StreamFailed,
            ).0,
        ),
        !recording_now(
            capture_step(
                AudioCapture { recorder: None, activity: CaptureActivity::Opening },
                CaptureEventView::DeviceUnavailable,
            ).0,
        ),
{
}

} // verus!
