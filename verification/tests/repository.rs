use ck3_community_title_project::common::LocError;
use ck3_community_title_project::localization::culture::{Culture, Heritage};
use ck3_community_title_project::localization::{Entry, Language, Localization, Repository};
use ck3_community_title_project::yaml_loc;
use ck3_community_title_project::yaml_loc::{SaveEvent, SaveJob, SaveStep};
use std::cell::RefCell;
use std::path::PathBuf;
use tera::Tera;

/// A store that keeps the files in memory, and refuses to write to one place if told so.
struct MemoryRepository<'a> {
    files: yaml_loc::Repository<'a>,
    refused: Option<PathBuf>,
    written: RefCell<Vec<(PathBuf, Vec<u8>)>>,
}

impl<'a> MemoryRepository<'a> {
    fn new(tera: &'a Tera, refused: Option<&str>) -> Self {
        Self {
            files: yaml_loc::Repository::new(vec!["mod".to_string(), "localization".to_string()], tera),
            refused: refused.map(PathBuf::from),
            written: RefCell::new(Vec::new()),
        }
    }

    fn paths(&self) -> Vec<PathBuf> {
        self.written.borrow().iter().map(|(path, _)| path.clone()).collect()
    }
}

impl<'a> Repository for MemoryRepository<'a> {
    fn load_localization(
        &self,
        path: &str,
        lang: &[Language],
        name: &str,
    ) -> Result<Localization, LocError> {
        self.files.load_localization(path, lang, name)
    }

    fn save_localization(&self, loc: &Localization) -> Result<(), LocError> {
        let mut job = SaveJob::new(loc);
        let mut event = SaveEvent::Ready;
        loop {
            event = match job.step(&self.files, event) {
                SaveStep::Render(request) => SaveEvent::Rendered(
                    self.files.tmpl().render(&request.template, &request.context),
                ),
                SaveStep::Write(file) => {
                    let path: PathBuf = file.path.iter().collect();
                    if Some(&path) == self.refused.as_ref() {
                        SaveEvent::WriteFailed {
                            path: path.display().to_string(),
                            cause: "refused".to_string(),
                        }
                    } else {
                        self.written.borrow_mut().push((path, file.bytes));
                        SaveEvent::Ready
                    }
                }
                SaveStep::Done => return Ok(()),
                SaveStep::Failed(error) => return Err(error),
            }
        }
    }
}

fn engine() -> Tera {
    let mut tera = Tera::default();
    tera.add_raw_template(
        "loc.yml",
        "l_{{ language }}:\n{% for line in lines %} {{ line.key }}:{{ line.version }} \"{{ line.content }}\"\n{% endfor %}",
    )
    .unwrap();
    tera
}

#[test]
fn saving_writes_one_file_per_language() {
    let tera = engine();
    let repo = MemoryRepository::new(&tera, None);
    let loc = Localization::new_from(
        "replace/culture",
        &Language::all(),
        "cultures",
        vec![Culture::new("bedouin", "Badawī", "Badawī", "al-Badū", "")],
    );
    repo.save_localization(&loc).unwrap();
    let expected: Vec<PathBuf> = Language::all()
        .iter()
        .map(|l| {
            PathBuf::from(format!(
                "mod/localization/{0}/replace/culture/cultures_l_{0}.yml",
                l.to_string()
            ))
        })
        .collect();
    assert_eq!(repo.paths(), expected);
    for ((_, bytes), language) in repo.written.borrow().iter().zip(Language::all()) {
        let text = format!(
            "l_{}:\n bedouin:0 \"Badawī\"\n bedouin_prefix:0 \"Badawī\"\n bedouin_collective_noun:0 \"al-Badū\"\n",
            language.to_string()
        );
        assert_eq!(&bytes[..3], &[0xEF, 0xBB, 0xBF]);
        assert_eq!(&bytes[3..], text.as_bytes());
    }
}

#[test]
fn saving_the_english_cultures_file() {
    let tera = engine();
    let repo = MemoryRepository::new(&tera, None);
    let loc = Localization::new_from(
        "replace/culture",
        &[Language::English],
        "cultures",
        vec![Culture::new("bedouin", "Badawī", "Badawī", "al-Badū", "")],
    );
    repo.save_localization(&loc).unwrap();
    assert_eq!(
        repo.paths(),
        vec![PathBuf::from("mod/localization/english/replace/culture/cultures_l_english.yml")]
    );
}

#[test]
fn saving_several_sets_one_after_the_other() {
    let tera = engine();
    let repo = MemoryRepository::new(&tera, None);
    let languages = [Language::English, Language::French];
    let heritages = Localization::new_from(
        "replace/culture/traditions",
        &languages,
        "cultural_heritages",
        vec![Heritage::new("arabic", "ʿArab", "ʿArab", "")],
    );
    let plain = Localization::new(
        "",
        &languages,
        "test",
        &[Entry::new("a3s", 2, vec![(Language::English, "no comment".to_string())], "")],
    );
    repo.save_localization(&heritages).unwrap();
    repo.save_localization(&plain).unwrap();
    assert_eq!(
        repo.paths(),
        vec![
            PathBuf::from("mod/localization/english/replace/culture/traditions/cultural_heritages_l_english.yml"),
            PathBuf::from("mod/localization/french/replace/culture/traditions/cultural_heritages_l_french.yml"),
            PathBuf::from("mod/localization/english/test_l_english.yml"),
            PathBuf::from("mod/localization/french/test_l_french.yml"),
        ]
    );
    let written = repo.written.borrow();
    assert_eq!(&written[3].1[3..], "l_french:\n a3s:2 \"no comment\"\n".as_bytes());
}

#[test]
fn a_refused_write_ends_the_saving_and_keeps_what_was_written() {
    let tera = engine();
    let repo = MemoryRepository::new(&tera, Some("mod/localization/german/sub/n_l_german.yml"));
    let loc = Localization::new("sub", &Language::all(), "n", &[]);
    match repo.save_localization(&loc) {
        Err(LocError::IoFailure { message, cause }) => {
            assert_eq!(message, "write file mod/localization/german/sub/n_l_german.yml failed.");
            assert_eq!(cause, "refused");
        }
        other => panic!("unexpected {:?}", other),
    }
    assert_eq!(
        repo.paths(),
        vec![
            PathBuf::from("mod/localization/english/sub/n_l_english.yml"),
            PathBuf::from("mod/localization/french/sub/n_l_french.yml"),
        ]
    );
}

#[test]
fn a_failing_template_ends_the_saving_before_anything_is_written() {
    let tera = Tera::default();
    let repo = MemoryRepository::new(&tera, None);
    let loc = Localization::new("sub", &Language::all(), "n", &[]);
    assert!(matches!(repo.save_localization(&loc), Err(LocError::RenderFailure(_))));
    assert!(repo.paths().is_empty());
}

#[test]
fn loading_through_a_store_is_not_implemented() {
    let tera = engine();
    let repo = MemoryRepository::new(&tera, None);
    assert!(matches!(
        repo.load_localization("sub", &Language::all(), "n"),
        Err(LocError::NotImplemented)
    ));
}
