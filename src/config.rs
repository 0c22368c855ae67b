use vstd::prelude::*;

use crate::quality::Quality;

verus! {

/// Tunables of the downloader. A copy travels with every dispatched job, so a later
/// change does not reach jobs already running.
#[derive(Debug, Clone)]
pub struct DownloaderConfig {
    pub concurrent_downloads: usize,
    pub quality: Quality,
    pub path: String,
    pub filename_template: String,
    pub id3v24: bool,
    pub convert_to_mp3: bool,
    pub separator: String,
    pub skip_existing: bool,
    pub download_lrc: bool,
    pub sp_dc: String,
    pub enhanced_lrc: bool,
}

impl DownloaderConfig {
    /// The default settings: four downloads at a time, the 320 kbps tier, files under
    /// `downloads` named `%artist% - %title%`, existing files skipped.
    pub fn new() -> (r: DownloaderConfig)
        ensures
            r.concurrent_downloads == 4,
            r.quality == Quality::Q320,
            r.path@ == "downloads"@,
            r.filename_template@ == "%artist% - %title%"@,
            r.id3v24,
            !r.convert_to_mp3,
            r.separator@ == ", "@,
            r.skip_existing,
            !r.download_lrc,
            r.sp_dc@ == "https://github.com/akashrchandran/syrics/wiki/Finding-sp_dc"@,
            r.enhanced_lrc,
    {
        DownloaderConfig {
            concurrent_downloads: 4,
            quality: Quality::Q320,
            path: String::from_str("downloads"),
            filename_template: String::from_str("%artist% - %title%"),
            id3v24: true,
            convert_to_mp3: false,
            separator: String::from_str(", "),
            skip_existing: true,
            download_lrc: false,
            sp_dc: String::from_str("https://github.com/akashrchandran/syrics/wiki/Finding-sp_dc"),
            enhanced_lrc: true,
        }
    }

    /// An equal copy of the settings.
    pub fn duplicate(&self) -> (r: DownloaderConfig)
        ensures
            r == *self,
    {
        DownloaderConfig {
            concurrent_downloads: self.concurrent_downloads,
            quality: self.quality,
            path: self.path.clone(),
            filename_template: self.filename_template.clone(),
            id3v24: self.id3v24,
            convert_to_mp3: self.convert_to_mp3,
            separator: self.separator.clone(),
            skip_existing: self.skip_existing,
            download_lrc: self.download_lrc,
            sp_dc: self.sp_dc.clone(),
            enhanced_lrc: self.enhanced_lrc,
        }
    }
}

} // verus!
