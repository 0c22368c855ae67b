use down_on_spot::config::DownloaderConfig;
use down_on_spot::queue::{DownloadJob, DownloadState};
use down_on_spot::runner::{JobAction, JobEvent, JobPhase, JobRunner, HEADER_LEN};
use librespot::audio::AudioDecrypt;

fn decrypt_all(key: [u8; 16], data: &[u8]) -> Vec<u8> {
    let mut out = vec![];
    let mut d = AudioDecrypt::new(librespot::core::audio_key::AudioKey(key), std::io::Cursor::new(data.to_vec()));
    std::io::Read::read_to_end(&mut d, &mut out).unwrap();
    out
}

#[test]
fn pipeline_writes_exactly_the_decrypted_payload() {
    let key = [0x5a; 16];
    let header = HEADER_LEN;
    let payload = 200_000usize;
    let plain: Vec<u8> = (0..header + payload).map(|i| (i * 31 % 251) as u8).collect();
    // The cipher is a stream cipher, so applying it encrypts as well.
    let encrypted = decrypt_all(key, &plain);
    let reference = decrypt_all(key, &encrypted)[header..].to_vec();
    assert_eq!(reference, plain[header..].to_vec());

    let mut runner = JobRunner::new(DownloadJob { id: 9, track_id: "abc".to_string() }, DownloaderConfig::new());
    runner.phase = JobPhase::AwaitStream;
    let mut source = AudioDecrypt::new(librespot::core::audio_key::AudioKey(key), std::io::Cursor::new(encrypted.clone()));
    let mut sink: Vec<u8> = vec![];
    let mut buf: Vec<u8> = vec![];
    let mut last_read = None;
    let mut ev = JobEvent::StreamOpened(encrypted.len());
    loop {
        match runner.step(ev) {
            JobAction::CreateFile => ev = JobEvent::Completed,
            JobAction::SkipHeader(n) => {
                let mut skip = vec![0u8; n];
                std::io::Read::read_exact(&mut source, &mut skip).unwrap();
                ev = JobEvent::Completed;
            }
            JobAction::ReadChunk(n) => {
                buf = vec![0u8; n];
                let got = std::io::Read::read(&mut source, &mut buf).unwrap();
                ev = JobEvent::Read(got);
            }
            JobAction::WriteChunk(n) => {
                sink.extend_from_slice(&buf[..n]);
                ev = JobEvent::Completed;
            }
            JobAction::Report(DownloadState::Downloading(read, total)) => {
                assert_eq!(total, header + payload);
                last_read = Some(read);
                ev = JobEvent::Completed;
            }
            JobAction::Report(DownloadState::Post) => break,
            other => panic!("unexpected action {:?}", other),
        }
    }
    assert_eq!(sink.len(), payload);
    assert_eq!(sink, reference);
    assert_eq!(last_read, Some(payload));
}
