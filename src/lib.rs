//! Verified core of the desktop shell's native side: which launch argument
//! names a project file, the one-time announcement of that file to the user
//! interface, the file-type filter of the native dialogs, and the conversion
//! of a file's modification time into milliseconds since the Unix epoch.
pub mod dialog;
pub mod startup;
pub mod timestamp;
