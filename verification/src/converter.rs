//! Conversion settings for x265/HEVC with ffmpeg: the encoder chosen from
//! what ffmpeg supports, the quality setting, and the ffmpeg arguments.
use vstd::prelude::*;
use vstd::string::StringExecFns;
use crate::models::{DownloadResult, HardwareAccel};
use crate::text::{chars_of, contains_seq, contains_str, decimal, push_decimal, string_of};

verus! {

/// The CRF used when none in 24..=26 is given.
pub const DEFAULT_CRF: u8 = 25;

/// The quality setting kept for a requested one: itself within 24..=26,
/// otherwise the default 25.
pub open spec fn effective_crf(crf: u8) -> u8 {
    if 24 <= crf <= 26 {
        crf
    } else {
        25
    }
}

/// One argument of the ffmpeg command: a fixed text, or the input or output
/// path.
#[derive(Debug)]
pub enum FfmpegArg {
    Text(String),
    Input,
    Output,
}

/// Spec-level view of an ffmpeg argument.
pub enum FfmpegArgView {
    Text(Seq<char>),
    Input,
    Output,
}

impl View for FfmpegArg {
    type V = FfmpegArgView;

    open spec fn view(&self) -> FfmpegArgView {
        match self {
            FfmpegArg::Text(s) => FfmpegArgView::Text(s@),
            FfmpegArg::Input => FfmpegArgView::Input,
            FfmpegArg::Output => FfmpegArgView::Output,
        }
    }
}

/// A fixed argument.
pub open spec fn t(s: Seq<char>) -> FfmpegArgView {
    FfmpegArgView::Text(s)
}

/// The ffmpeg arguments for converting with the given encoder and quality:
/// overwrite, then for NVENC CUDA decoding, `hevc_nvenc` with preset p3 and
/// variable bit rate at the quality as `-cq`; for Quick Sync `hevc_qsv`
/// with the quality as `-global_quality`; otherwise (software, and
/// VideoToolbox, for which no hardware arguments are defined) `libx265` with
/// the quality as `-crf` and the medium preset; audio is copied.
pub open spec fn ffmpeg_arg_views(hw: HardwareAccel, crf: u8) -> Seq<FfmpegArgView> {
    let q = decimal(crf as nat);
    match hw {
        HardwareAccel::Nvenc => seq![
            t("-y"@),
            t("-hwaccel"@),
            t("cuda"@),
            t("-i"@),
            FfmpegArgView::Input,
            t("-c:v"@),
            t("hevc_nvenc"@),
            t("-preset"@),
            t("p3"@),
            t("-rc"@),
            t("vbr"@),
            t("-cq"@),
            t(q),
            t("-c:a"@),
            t("copy"@),
            FfmpegArgView::Output,
        ],
        HardwareAccel::Qsv => seq![
            t("-y"@),
            t("-hwaccel"@),
            t("qsv"@),
            t("-i"@),
            FfmpegArgView::Input,
            t("-c:v"@),
            t("hevc_qsv"@),
            t("-global_quality"@),
            t(q),
            t("-c:a"@),
            t("copy"@),
            FfmpegArgView::Output,
        ],
        HardwareAccel::Software | HardwareAccel::VideoToolbox => seq![
            t("-y"@),
            t("-i"@),
            FfmpegArgView::Input,
            t("-c:v"@),
            t("libx265"@),
            t("-crf"@),
            t(q),
            t("-preset"@),
            t("medium"@),
            t("-c:a"@),
            t("copy"@),
            FfmpegArgView::Output,
        ],
    }
}

/// The HEVC encoder used with each kind of acceleration.
pub open spec fn hevc_encoder(hw: HardwareAccel) -> Seq<char> {
    match hw {
        HardwareAccel::Nvenc => "hevc_nvenc"@,
        HardwareAccel::Qsv => "hevc_qsv"@,
        HardwareAccel::Software | HardwareAccel::VideoToolbox => "libx265"@,
    }
}

/// Every conversion encodes to HEVC with the encoder of its acceleration,
/// passes the quality setting, copies the audio and overwrites the output.
pub proof fn law_hevc_conversion(hw: HardwareAccel, crf: u8)
    ensures
        ffmpeg_arg_views(hw, crf).contains(t(hevc_encoder(hw))),
        ffmpeg_arg_views(hw, crf).contains(t(decimal(crf as nat))),
        ffmpeg_arg_views(hw, crf).contains(t("copy"@)),
        ffmpeg_arg_views(hw, crf)[0] == t("-y"@),
{
    let a = ffmpeg_arg_views(hw, crf);
    match hw {
        HardwareAccel::Nvenc => {
            assert(a[6] == t(hevc_encoder(hw)));
            assert(a[12] == t(decimal(crf as nat)));
            assert(a[14] == t("copy"@));
        },
        HardwareAccel::Qsv => {
            assert(a[6] == t(hevc_encoder(hw)));
            assert(a[8] == t(decimal(crf as nat)));
            assert(a[10] == t("copy"@));
        },
        _ => {
            assert(a[4] == t(hevc_encoder(hw)));
            assert(a[6] == t(decimal(crf as nat)));
            assert(a[10] == t("copy"@));
        },
    }
}

/// Video converter to x265/HEVC; its quality setting is always in 24..=26.
#[derive(Debug)]
pub struct Converter {
    hw_accel: HardwareAccel,
    crf: u8,
}

fn text(s: &str) -> (r: FfmpegArg)
    ensures
        r@ == t(s@),
{
    FfmpegArg::Text(String::from_str(s))
}

impl Converter {
    #[verifier::type_invariant]
    spec fn crf_in_range(self) -> bool {
        24 <= self.crf <= 26
    }

    /// The encoder this converter uses.
    pub closed spec fn accel(self) -> HardwareAccel {
        self.hw_accel
    }

    /// The quality setting this converter uses.
    pub closed spec fn quality(self) -> u8 {
        self.crf
    }

    /// A converter with the detected encoder and the default quality 25.
    pub fn new(hw_accel: HardwareAccel) -> (r: Self)
        ensures
            r.accel() == hw_accel,
            r.quality() == 25,
    {
        Converter { hw_accel, crf: DEFAULT_CRF }
    }

    /// A converter with the given encoder and quality; a quality outside
    /// 24..=26 is replaced by 25.
    pub fn with_config(hw_accel: HardwareAccel, crf: u8) -> (r: Self)
        ensures
            r.accel() == hw_accel,
            r.quality() == effective_crf(crf),
    {
        let crf = if 24 <= crf && crf <= 26 {
            crf
        } else {
            DEFAULT_CRF
        };
        Converter { hw_accel, crf }
    }

    /// The encoder in use.
    pub fn hw_accel(&self) -> (r: HardwareAccel)
        ensures
            r == self.accel(),
    {
        self.hw_accel
    }

    /// The quality setting in use, always in 24..=26.
    pub fn crf(&self) -> (r: u8)
        ensures
            r == self.quality(),
            24 <= r <= 26,
    {
        proof {
            use_type_invariant(self);
        }
        self.crf
    }

    /// The encoder to use: NVENC when ffmpeg lists `hevc_nvenc`, else Quick
    /// Sync when it lists `hevc_qsv`, else software.
    pub fn detect_hardware_accel(nvenc_supported: bool, qsv_supported: bool) -> (r: HardwareAccel)
        ensures
            r == if nvenc_supported {
                HardwareAccel::Nvenc
            } else if qsv_supported {
                HardwareAccel::Qsv
            } else {
                HardwareAccel::Software
            },
    {
        if nvenc_supported {
            return HardwareAccel::Nvenc;
        }
        if qsv_supported {
            return HardwareAccel::Qsv;
        }
        HardwareAccel::Software
    }

    /// Whether the output of `ffmpeg -hide_banner -encoders` lists the
    /// encoder; false when ffmpeg could not be run (`None`).
    pub fn check_encoder_support(encoders_output: Option<&str>, encoder: &str) -> (r: bool)
        ensures
            r == match encoders_output {
                Some(o) => contains_seq(o@, encoder@),
                None => false,
            },
    {
        match encoders_output {
            Some(o) => {
                let out = chars_of(o);
                let enc = chars_of(encoder);
                crate::text::contains(&out, &enc)
            },
            None => false,
        }
    }

    /// The ffmpeg arguments for one conversion, with places for the input
    /// and output paths.
    pub fn ffmpeg_args(&self) -> (r: Vec<FfmpegArg>)
        ensures
            r@.len() == ffmpeg_arg_views(self.accel(), self.quality()).len(),
            forall|i: int|
                0 <= i < r@.len() ==> (#[trigger] r@[i])@ == ffmpeg_arg_views(
                    self.accel(),
                    self.quality(),
                )[i],
    {
        let mut q: Vec<char> = Vec::new();
        push_decimal(&mut q, self.crf as u64);
        let mut a: Vec<FfmpegArg> = Vec::new();
        a.push(text("-y"));
        match self.hw_accel {
            HardwareAccel::Nvenc => {
                a.push(text("-hwaccel"));
                a.push(text("cuda"));
                a.push(text("-i"));
                a.push(FfmpegArg::Input);
                a.push(text("-c:v"));
                a.push(text("hevc_nvenc"));
                a.push(text("-preset"));
                a.push(text("p3"));
                a.push(text("-rc"));
                a.push(text("vbr"));
                a.push(text("-cq"));
                a.push(FfmpegArg::Text(string_of(&q)));
                a.push(text("-c:a"));
                a.push(text("copy"));
                a.push(FfmpegArg::Output);
            },
            HardwareAccel::Qsv => {
                a.push(text("-hwaccel"));
                a.push(text("qsv"));
                a.push(text("-i"));
                a.push(FfmpegArg::Input);
                a.push(text("-c:v"));
                a.push(text("hevc_qsv"));
                a.push(text("-global_quality"));
                a.push(FfmpegArg::Text(string_of(&q)));
                a.push(text("-c:a"));
                a.push(text("copy"));
                a.push(FfmpegArg::Output);
            },
            HardwareAccel::Software | HardwareAccel::VideoToolbox => {
                a.push(text("-i"));
                a.push(FfmpegArg::Input);
                a.push(text("-c:v"));
                a.push(text("libx265"));
                a.push(text("-crf"));
                a.push(FfmpegArg::Text(string_of(&q)));
                a.push(text("-preset"));
                a.push(text("medium"));
                a.push(text("-c:a"));
                a.push(text("copy"));
                a.push(FfmpegArg::Output);
            },
        }
        let ghost views = Seq::new(a@.len(), |i: int| a@[i]@);
        assert(views =~= ffmpeg_arg_views(self.accel(), self.quality()));
        a
    }

    /// Positions of the downloads to convert: the successful ones, in order.
    pub fn downloads_to_convert(downloads: &Vec<DownloadResult>) -> (r: Vec<usize>)
        ensures
            forall|k: int| 0 <= k < r@.len() ==> (#[trigger] r@[k]) < downloads@.len(),
            forall|k: int| 0 <= k < r@.len() ==> downloads@[#[trigger] r@[k] as int].success,
            forall|a: int, b: int| 0 <= a < b < r@.len() ==> #[trigger] r@[a] < #[trigger] r@[b],
            forall|i: int|
                0 <= i < downloads@.len() && #[trigger] downloads@[i].success ==> r@.contains(
                    i as usize,
                ),
    {
        let mut r: Vec<usize> = Vec::new();
        let mut i: usize = 0;
        while i < downloads.len()
            invariant
                i <= downloads.len(),
                forall|k: int| 0 <= k < r@.len() ==> (#[trigger] r@[k]) < i,
                forall|k: int| 0 <= k < r@.len() ==> downloads@[#[trigger] r@[k] as int].success,
                forall|a: int, b: int| 0 <= a < b < r@.len() ==> #[trigger] r@[a] < #[trigger] r@[b],
                forall|j: int|
                    0 <= j < i && #[trigger] downloads@[j].success ==> r@.contains(j as usize),
            decreases downloads.len() - i,
        {
            if downloads[i].success {
                let ghost before = r@;
                r.push(i);
                assert forall|j: int| 0 <= j < i + 1 && #[trigger] downloads@[j].success implies r@.contains(
                    j as usize,
                ) by {
                    if j < i {
                        let k = choose|k: int| 0 <= k < before.len() && before[k] == j as usize;
                        assert(r@[k] == j as usize);
                    } else {
                        assert(r@[r@.len() - 1] == i);
                    }
                }
            }
            i = i + 1;
        }
        r
    }
}


/// ffmpeg reads the input and writes the output: the input appears exactly
/// once, right after `-i`, and the output only as the last argument.
pub open spec fn reads_input_writes_output(a: Seq<FfmpegArgView>) -> bool {
    &&& a.len() >= 3
    &&& a.last() == FfmpegArgView::Output
    &&& forall|k: int| 0 <= k < a.len() - 1 ==> #[trigger] a[k] != FfmpegArgView::Output
    &&& exists|p: int|
        1 <= p < a.len() && #[trigger] a[p] == FfmpegArgView::Input && a[p - 1] == t("-i"@)
            && forall|k: int| 0 <= k < a.len() && k != p ==> #[trigger] a[k] != FfmpegArgView::Input
}

/// Whatever the acceleration and quality, the conversion reads the
/// downloaded file given after `-i` and writes only the output file, named
/// last.
pub proof fn law_input_then_output(hw: HardwareAccel, crf: u8)
    ensures
        reads_input_writes_output(ffmpeg_arg_views(hw, crf)),
{
    let a = ffmpeg_arg_views(hw, crf);
    match hw {
        HardwareAccel::Nvenc => {
            assert(a[4] == FfmpegArgView::Input && a[3] == t("-i"@));
        },
        HardwareAccel::Qsv => {
            assert(a[4] == FfmpegArgView::Input && a[3] == t("-i"@));
        },
        _ => {
            assert(a[2] == FfmpegArgView::Input && a[1] == t("-i"@));
        },
    }
}

} // verus!
