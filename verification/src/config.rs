//! Configuration values of the capture and transcription pipeline.

use std::collections::HashMap;
use std::path::PathBuf;
use vstd::prelude::*;
use vstd::string::StringExecFns;

verus! {

#[verifier::external_type_specification]
#[verifier::external_body]
pub struct ExPathBuf(PathBuf);

/// Sample format of a recording.
#[derive(Debug, Clone, Copy, PartialEq, Eq, Structural)]
pub enum SampleFormat {
    /// 32-bit floating point samples.
    F32,
    /// 16-bit integer samples.
    I16,
}

impl SampleFormat {
    /// Width of one sample in bits.
    pub fn bits_per_sample(&self) -> (bits: u16)
        ensures
            bits == match *self {
                SampleFormat::F32 => 32u16,
                SampleFormat::I16 => 16u16,
            },
    {
        match self {
            SampleFormat::F32 => 32,
            SampleFormat::I16 => 16,
        }
    }
}

/// Audio recording configuration.
#[derive(Debug, Clone)]
pub struct AudioConfig {
    /// Number of audio channels (1 for mono, 2 for stereo).
    pub channels: u16,
    /// Sample rate in Hz.
    pub sample_rate: u32,
    /// Sample format.
    pub sample_format: SampleFormat,
    /// Name of the input device; the default device where there is none.
    pub device: Option<String>,
}

impl Default for AudioConfig {
    /// Mono, 16 kHz, 32-bit floating point, on the default device.
    fn default() -> (config: Self)
        ensures
            config.channels == 1,
            config.sample_rate == 16000,
            config.sample_format == SampleFormat::F32,
            config.device is None,
    {
        AudioConfig {
            channels: 1,
            sample_rate: 16000,
            sample_format: SampleFormat::F32,
            device: None,
        }
    }
}

/// Path configuration.
#[derive(Debug)]
pub struct PathConfig {
    /// Cache directory for temporary files.
    pub cache_dir: PathBuf,
    /// Path of the recorded audio file.
    pub recording_path: PathBuf,
}

/// What the transcription model is prompted with.
#[derive(Debug, Clone, PartialEq)]
pub enum PromptType {
    /// A list of vocabulary words, joined by commas.
    Vocabulary { vocabulary: Vec<String> },
    /// A prompt given as it is.
    Raw { prompt: String },
    /// No prompt.
    Absent,
}

impl Default for PromptType {
    fn default() -> (prompt: Self)
        ensures
            prompt is Absent,
    {
        PromptType::Absent
    }
}

/// The separator between two vocabulary words of a prompt.
pub open spec fn separator() -> Seq<char> {
    seq![',', ' ']
}

/// The words joined into one text, with [`separator`] between neighbours.
pub open spec fn joined(words: Seq<Seq<char>>) -> Seq<char>
    decreases words.len(),
{
    if words.len() == 0 {
        Seq::<char>::empty()
    } else if words.len() == 1 {
        words[0]
    } else {
        joined(words.drop_last()) + separator() + words.last()
    }
}

/// The texts of a list of strings.
pub open spec fn texts(words: Seq<String>) -> Seq<Seq<char>> {
    words.map_values(|w: String| w@)
}

/// The prompt text of a prompt, where it has one.
pub open spec fn prompt_text(prompt: PromptType) -> Option<Seq<char>> {
    match prompt {
        PromptType::Vocabulary { vocabulary } => if vocabulary@.len() == 0 {
            None
        } else {
            Some(joined(texts(vocabulary@)))
        },
        PromptType::Raw { prompt } => Some(prompt@),
        PromptType::Absent => None,
    }
}

impl PromptType {
    /// The prompt text to use with the model: the vocabulary joined by
    /// commas where there is one, a raw prompt as it is, and otherwise none.
    pub fn get_prompt_text(&self) -> (text: Option<String>)
        ensures
            text is Some == prompt_text(*self) is Some,
            text matches Some(t) ==> prompt_text(*self) == Some(t@),
    {
        match self {
            PromptType::Vocabulary { vocabulary } => {
                if vocabulary.len() == 0 {
                    None
                } else {
                    let mut text: String = vocabulary[0].clone();
                    let mut i: usize = 1;
                    assert(texts(vocabulary@).take(1) == seq![vocabulary@[0]@]);
                    while i < vocabulary.len()
                        invariant
                            1 <= i <= vocabulary.len(),
                            text@ == joined(texts(vocabulary@).take(i as int)),
                        decreases vocabulary.len() - i,
                    {
                        proof {
                            reveal_strlit(", ");
                            let words = texts(vocabulary@);
                            assert(words.take(i + 1).drop_last() == words.take(i as int));
                            assert(", "@ == separator());
                        }
                        text.append(", ");
                        text.append(vocabulary[i].as_str());
                        i = i + 1;
                    }
                    assert(texts(vocabulary@).take(i as int) == texts(vocabulary@));
                    Some(text)
                }
            },
            PromptType::Raw { prompt } => Some(prompt.clone()),
            PromptType::Absent => None,
        }
    }
}

/// Transcription model configuration.
#[derive(Debug, Clone)]
pub struct ModelConfig {
    /// Model repository.
    pub repo: String,
    /// Model file name within the repository.
    pub filename: String,
    /// The prompt given to the model.
    pub prompt: PromptType,
    /// Texts to replace in a transcript, each with its replacement.
    pub replacements: HashMap<String, String>,
}

impl Default for ModelConfig {
    /// The base English model, without prompt or replacements.
    fn default() -> (config: Self)
        ensures
            config.repo@ == "ggerganov/whisper.cpp"@,
            config.filename@ == "ggml-base.en.bin"@,
            config.prompt is Absent,
            config.replacements@ == Map::<String, String>::empty(),
    {
        ModelConfig {
            repo: String::from_str("ggerganov/whisper.cpp"),
            filename: String::from_str("ggml-base.en.bin"),
            prompt: PromptType::Absent,
            replacements: HashMap::new(),
        }
    }
}

} // verus!
