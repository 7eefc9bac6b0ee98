use sov_rollup_manager::checkpoint::CheckpointWrite;
use sov_rollup_manager::config::FileRead;
use sov_rollup_manager::{load_checkpoint, write_checkpoint, Checkpoint, CheckpointError};

/// A checkpoint file in memory, encoded as JSON.
struct Disk {
    content: Option<String>,
}

impl Disk {
    fn write(&mut self, checkpoint: &Checkpoint) -> CheckpointWrite {
        let mut fields = serde_json::Map::new();
        fields.insert("version_index".to_string(), checkpoint.version_index.into());
        fields.insert(
            "binary_path".to_string(),
            checkpoint.binary_path.clone().into(),
        );
        match serde_json::to_string_pretty(&fields) {
            Ok(content) => {
                self.content = Some(content);
                CheckpointWrite::Written
            }
            Err(e) => CheckpointWrite::NotSerialized(e.to_string()),
        }
    }

    fn read(&self) -> Option<FileRead<Checkpoint>> {
        let content = self.content.as_ref()?;
        Some(match serde_json::from_str::<serde_json::Value>(content) {
            Err(e) => FileRead::Malformed(e.to_string()),
            Ok(value) => FileRead::Parsed(Checkpoint {
                version_index: value["version_index"].as_u64().expect("index") as usize,
                binary_path: value["binary_path"].as_str().expect("path").to_string(),
            }),
        })
    }
}

#[test]
fn load_nonexistent_returns_none() {
    let disk = Disk { content: None };
    let result = load_checkpoint(disk.read()).unwrap();
    assert!(result.is_none());
}

#[test]
fn write_and_load_roundtrip() {
    let mut disk = Disk { content: None };
    let checkpoint = Checkpoint {
        version_index: 2,
        binary_path: "/usr/bin/rollup-v3".to_string(),
    };

    write_checkpoint(disk.write(&checkpoint)).unwrap();
    let loaded = load_checkpoint(disk.read()).unwrap().unwrap();

    assert_eq!(loaded.version_index, 2);
    assert_eq!(loaded.binary_path, "/usr/bin/rollup-v3");
}

#[test]
fn parse_error_on_invalid_json() {
    let disk = Disk {
        content: Some("not valid json".to_string()),
    };
    let result = load_checkpoint(disk.read());
    assert!(matches!(result, Err(CheckpointError::Parse(_))));
}

#[test]
fn files_that_cannot_be_used_are_reported() {
    assert!(matches!(
        load_checkpoint(Some(FileRead::Unreadable("denied".to_string()))),
        Err(CheckpointError::Read(m)) if m == "denied"
    ));
    assert!(matches!(
        write_checkpoint(CheckpointWrite::NotSerialized("odd".to_string())),
        Err(CheckpointError::Serialize(m)) if m == "odd"
    ));
    assert!(matches!(
        write_checkpoint(CheckpointWrite::NotWritten("full".to_string())),
        Err(CheckpointError::Write(m)) if m == "full"
    ));
}
