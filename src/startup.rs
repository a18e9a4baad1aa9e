use vstd::prelude::*;

verus! {

/// An unrecoverable startup failure; each names the resource that failed.
#[derive(Clone, Debug)]
pub enum StartupError {
    /// No program path was given on the command line.
    MissingProgramPath,
    /// The program file at `path` could not be opened or read.
    UnreadableProgram { path: String },
    /// No default audio output device exists.
    NoAudioDevice,
}

/// The program path: the one positional argument after the program name.
/// Checked before any window or audio device is opened, so that a missing
/// path ends the process with no other effect.
pub fn program_path(args: &Vec<String>) -> (r: Result<String, StartupError>)
    ensures
        r is Ok <==> args@.len() >= 2,
        r matches Ok(p) ==> p@ == args@[1]@,
        r matches Err(e) ==> e is MissingProgramPath,
{
    if args.len() < 2 {
        Err(StartupError::MissingProgramPath)
    } else {
        Ok(args[1].clone())
    }
}

/// The program image read from `path`, or the error that names the path
/// when the file could not be read.
pub fn program_image(path: &String, contents: Option<Vec<u8>>) -> (r: Result<Vec<u8>, StartupError>)
    ensures
        r is Ok <==> contents is Some,
        r matches Ok(bytes) ==> contents == Some(bytes),
        r matches Err(e) ==> (e matches StartupError::UnreadableProgram { path: p } && p@ == path@),
{
    match contents {
        Some(bytes) => Ok(bytes),
        None => Err(StartupError::UnreadableProgram { path: path.clone() }),
    }
}

} // verus!
