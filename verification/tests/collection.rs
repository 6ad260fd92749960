use rswc::manager::{ConfigSource, DownloadJob, DownloadOutcome, DownloadStep, Manager, SUFFIX_LEN};
use rswc::cli::InputParser;
use rswc::utils::CommandError;
use rswc::workshop::{WorkshopCollection, WorkshopEntry};

fn strings(items: &[&str]) -> Vec<String> {
    items.iter().map(|s| s.to_string()).collect()
}

fn manager_with_alias(name: &str, id: &str) -> Manager {
    let mut manager = Manager::new();
    manager.config.load_config(ConfigSource::Missing).unwrap();
    manager.config.get_props_mut().unwrap().set_alias_by_values(name.to_string(), id.to_string());
    manager
}

#[test]
fn empty_collection_has_no_script() {
    let collection = WorkshopCollection::new();
    assert_eq!(collection.len(), 0);
    assert_eq!(collection.export(), Vec::<String>::new());
    assert_eq!(collection.artifact("abcdefgh"), None);
}

#[test]
fn adding_nothing_changes_nothing() {
    let mut collection = WorkshopCollection::new();
    collection.add("440".to_string(), "Team X".to_string(), vec![]);
    assert_eq!(collection.len(), 0);
    assert_eq!(collection.export(), Vec::<String>::new());
    collection.add("440".to_string(), "Team X".to_string(), vec![1]);
    let before = collection.export();
    collection.add("440".to_string(), "Team X".to_string(), vec![]);
    collection.add("550".to_string(), "Other".to_string(), vec![]);
    assert_eq!(collection.len(), 1);
    assert_eq!(collection.export(), before);
}

#[test]
fn items_of_one_application_are_exported_in_order() {
    let mut collection = WorkshopCollection::new();
    collection.add("440".to_string(), "Team X".to_string(), vec![1, 2]);
    collection.add("440".to_string(), "Team X".to_string(), vec![3]);
    assert_eq!(collection.len(), 1);
    assert_eq!(
        collection.export(),
        strings(&[
            "+login",
            "anonymous",
            "+workshop_download_item",
            "440",
            "1",
            "+workshop_download_item",
            "440",
            "2",
            "+workshop_download_item",
            "440",
            "3",
            "+quit",
        ])
    );
}

#[test]
fn duplicates_are_kept() {
    let mut collection = WorkshopCollection::new();
    collection.add("440".to_string(), "Team X".to_string(), vec![7, 7]);
    collection.add("440".to_string(), "Team X".to_string(), vec![7]);
    assert_eq!(
        collection.export().join(" "),
        "+login anonymous +workshop_download_item 440 7 +workshop_download_item 440 7 \
         +workshop_download_item 440 7 +quit"
    );
}

#[test]
fn applications_are_exported_in_the_order_of_their_first_item() {
    let mut collection = WorkshopCollection::new();
    collection.add("550".to_string(), "Second Game".to_string(), vec![10]);
    collection.add("440".to_string(), "First Game".to_string(), vec![20]);
    collection.add("550".to_string(), "Renamed".to_string(), vec![30]);
    assert_eq!(collection.names(), strings(&["Second Game", "First Game"]));
    assert_eq!(
        collection.export().join(" "),
        "+login anonymous +workshop_download_item 550 10 +workshop_download_item 550 30 \
         +workshop_download_item 440 20 +quit"
    );
}

#[test]
fn export_twice_gives_the_same_script() {
    let mut collection = WorkshopCollection::new();
    collection.add("440".to_string(), "Team X".to_string(), vec![1, 2]);
    collection.add("550".to_string(), "Other".to_string(), vec![3]);
    let first = collection.export();
    let second = collection.export();
    assert_eq!(first, second);
    assert_eq!(first.len(), 2 + 3 * 3 + 1);
}

#[test]
fn artifact_names_the_file_after_the_applications() {
    let mut collection = WorkshopCollection::new();
    collection.add("440".to_string(), "team_x".to_string(), vec![1]);
    collection.add("550".to_string(), "other".to_string(), vec![2]);
    let export = collection.artifact("Ab3dE6gH").unwrap();
    assert_eq!(export.file_name, "team_x+other-Ab3dE6gH.txt");
    assert_eq!(
        export.contents,
        "+login anonymous +workshop_download_item 440 1 +workshop_download_item 550 2 +quit"
    );
    assert_eq!(export.tokens, collection.export());
}

#[test]
fn clear_discards_every_entry() {
    let mut collection = WorkshopCollection::new();
    collection.add("440".to_string(), "Team X".to_string(), vec![1, 2]);
    collection.clear();
    assert_eq!(collection.len(), 0);
    assert_eq!(collection.export(), Vec::<String>::new());
}

#[test]
fn manager_files_items_under_the_alias_of_the_application() {
    let mut manager = manager_with_alias("Team X", "440");
    assert_eq!(manager.add_items("440".to_string(), vec![1, 2]), Ok(Some("team_x".to_string())));
    assert_eq!(manager.add_items("440".to_string(), vec![3]), Ok(Some("team_x".to_string())));
    assert_eq!(
        manager.script().join(" "),
        "+login anonymous +workshop_download_item 440 1 +workshop_download_item 440 2 \
         +workshop_download_item 440 3 +quit"
    );
    assert_eq!(manager.workshop.names(), strings(&["team_x"]));
}

#[test]
fn manager_appends_to_an_entry_without_an_alias() {
    let mut manager = Manager::new();
    manager.workshop.add("440".to_string(), "Team X".to_string(), vec![1, 2]);
    assert_eq!(manager.add_items("440".to_string(), vec![3, 1]), Ok(Some("Team X".to_string())));
    assert_eq!(
        manager.workshop.entries(),
        vec![WorkshopEntry {
            app_id: "440".to_string(),
            app_name: "Team X".to_string(),
            item_ids: vec![1, 2, 3, 1],
        }]
    );
    assert_eq!(manager.add_items("550".to_string(), vec![9]), Err(CommandError::NoConfig));
}

#[test]
fn an_entry_keeps_its_name_when_the_alias_changes() {
    let mut manager = manager_with_alias("first name", "440");
    assert_eq!(manager.add_items("440".to_string(), vec![1]), Ok(Some("first_name".to_string())));
    let table = manager.config.get_props_mut().unwrap();
    assert!(table.remove_alias("first name".to_string()));
    assert_eq!(manager.add_items("440".to_string(), vec![2]), Ok(Some("first_name".to_string())));
    let table = manager.config.get_props_mut().unwrap();
    table.set_alias_by_values("other".to_string(), "440".to_string());
    assert_eq!(manager.add_items("440".to_string(), vec![3]), Ok(Some("first_name".to_string())));
    assert_eq!(manager.workshop.names(), strings(&["first_name"]));
    assert_eq!(
        manager.script().join(" "),
        "+login anonymous +workshop_download_item 440 1 +workshop_download_item 440 2 \
         +workshop_download_item 440 3 +quit"
    );
}

#[test]
fn manager_files_items_under_a_given_name() {
    let mut manager = Manager::new();
    assert_eq!(manager.add("440".to_string(), "Team X".to_string(), vec![]), None);
    assert_eq!(manager.workshop.len(), 0);
    assert_eq!(
        manager.add("440".to_string(), "Team X".to_string(), vec![1, 2]),
        Some("Team X".to_string())
    );
    assert_eq!(
        manager.add("440".to_string(), "Renamed".to_string(), vec![3]),
        Some("Team X".to_string())
    );
    assert_eq!(manager.add("440".to_string(), "Renamed".to_string(), vec![]), None);
    assert_eq!(
        manager.add("550".to_string(), "Renamed".to_string(), vec![4]),
        Some("Renamed".to_string())
    );
    assert_eq!(manager.workshop.name_of("440"), Some("Team X".to_string()));
    assert_eq!(manager.workshop.name_of("550"), Some("Renamed".to_string()));
    assert_eq!(manager.workshop.name_of("660"), None);
    assert_eq!(
        manager.script().join(" "),
        "+login anonymous +workshop_download_item 440 1 +workshop_download_item 440 2 \
         +workshop_download_item 440 3 +workshop_download_item 550 4 +quit"
    );
}

#[test]
fn manager_adds_nothing_without_items() {
    let mut manager = Manager::new();
    assert_eq!(manager.add_items("440".to_string(), vec![]), Ok(None));
    assert_eq!(manager.script(), Vec::<String>::new());
}

#[test]
fn manager_refuses_items_of_an_application_without_a_name() {
    let mut manager = Manager::new();
    assert_eq!(manager.add_items("440".to_string(), vec![1]), Err(CommandError::NoConfig));
    let mut manager = manager_with_alias("Team X", "440");
    assert_eq!(manager.add_items("550".to_string(), vec![1]), Err(CommandError::AppNameNotFound));
    assert_eq!(manager.script(), Vec::<String>::new());
}

#[test]
fn manager_exports_nothing_from_an_empty_collection() {
    let manager = Manager::new();
    assert_eq!(manager.export(), None);
    assert_eq!(manager.export_as("abcdefgh"), None);
}

#[test]
fn manager_export_has_a_random_suffix_of_letters_and_digits() {
    let mut manager = manager_with_alias("Team X", "440");
    manager.add_items("440".to_string(), vec![5]).unwrap();
    let export = manager.export().unwrap();
    let prefix = "team_x-";
    assert!(export.file_name.starts_with(prefix));
    assert!(export.file_name.ends_with(".txt"));
    let suffix = &export.file_name[prefix.len()..export.file_name.len() - 4];
    assert_eq!(suffix.chars().count(), SUFFIX_LEN);
    assert!(suffix.chars().all(|c| c.is_ascii_alphanumeric()));
    assert_eq!(export.contents, "+login anonymous +workshop_download_item 440 5 +quit");
    assert_eq!(export.tokens, manager.script());
    assert_eq!(manager.export_as(suffix), Some(export));
}

#[test]
fn manager_keeps_its_entries_after_an_export() {
    let mut manager = manager_with_alias("Team X", "440");
    manager.add_items("440".to_string(), vec![5]).unwrap();
    let first = manager.export().unwrap();
    let second = manager.export().unwrap();
    assert_eq!(first.tokens, second.tokens);
    assert_eq!(first.contents, second.contents);
    manager.clear();
    assert_eq!(manager.export(), None);
}

#[test]
fn job_counts_the_items_of_a_script() {
    assert_eq!(Manager::job_of(vec![]), None);
    let job = Manager::job_of(strings(&["+login", "anonymous", "+quit"])).unwrap();
    assert_eq!(job.item_count, 0);
    let tokens = strings(&["+login", "anonymous", "+workshop_download_item", "440", "1", "+quit"]);
    assert_eq!(
        Manager::job_of(tokens.clone()),
        Some(DownloadJob { args: tokens, item_count: 1 })
    );
    assert_eq!(Manager::job_of(strings(&["x"])).unwrap().item_count, 0);
    assert_eq!(Manager::job_of(strings(&["a"; 12])).unwrap().item_count, 3);
}

#[test]
fn download_reads_the_script_that_the_option_names() {
    let manager = Manager::new();
    let input = InputParser::new("download --file script.txt").unwrap();
    assert_eq!(manager.download(&input), DownloadStep::ReadScript("script.txt".to_string()));
}

#[test]
fn download_has_nothing_to_do_with_an_empty_collection() {
    let manager = Manager::new();
    let input = InputParser::new("download").unwrap();
    assert_eq!(manager.download(&input), DownloadStep::Nothing);
}

#[test]
fn download_exports_the_collection() {
    let mut manager = manager_with_alias("Team X", "440");
    manager.add_items("440".to_string(), vec![1, 2]).unwrap();
    let input = InputParser::new("download").unwrap();
    match manager.download(&input) {
        DownloadStep::Launch(job, Some(export)) => {
            assert_eq!(job.args, manager.script());
            assert_eq!(job.item_count, 2);
            assert_eq!(export.tokens, manager.script());
        }
        other => panic!("unexpected step {:?}", other),
    }
}

#[test]
fn download_script_takes_the_words_of_the_file() {
    assert_eq!(Manager::download_script(None), DownloadStep::Nothing);
    assert_eq!(Manager::download_script(Some(" \n".to_string())), DownloadStep::Nothing);
    let text = "+login anonymous\n+workshop_download_item 440 1\t+quit\n".to_string();
    let args = strings(&["+login", "anonymous", "+workshop_download_item", "440", "1", "+quit"]);
    assert_eq!(
        Manager::download_script(Some(text)),
        DownloadStep::Launch(DownloadJob { args, item_count: 1 }, None)
    );
}

#[test]
fn download_report_tells_how_it_ended() {
    let quiet = DownloadOutcome::Exited { success: true, diagnostics: String::new() };
    assert_eq!(Manager::download_report(3, &quiet), strings(&["[SUCCESS] Downloaded 3 items"]));
    let noisy = DownloadOutcome::Exited { success: true, diagnostics: "warning: slow".to_string() };
    assert_eq!(
        Manager::download_report(0, &noisy),
        strings(&["[SUCCESS] Downloaded 0 items", "[INFO] warning: slow"])
    );
    let refused = DownloadOutcome::Exited { success: false, diagnostics: "no login".to_string() };
    assert_eq!(
        Manager::download_report(3, &refused),
        strings(&["[ERR] Couldn't download items", "[INFO] no login"])
    );
    let silent = DownloadOutcome::Exited { success: false, diagnostics: String::new() };
    assert_eq!(Manager::download_report(3, &silent), strings(&["[ERR] Couldn't download items"]));
    let failed = DownloadOutcome::NotStarted { cause: "entity not found".to_string() };
    assert_eq!(
        Manager::download_report(3, &failed),
        strings(&["[ERR] Couldn't download items", "[ERR] Cause: entity not found"])
    );
}

#[test]
fn entries_hold_what_was_added() {
    let mut collection = WorkshopCollection::new();
    assert_eq!(collection.entries(), vec![]);
    collection.add("440".to_string(), "Team X".to_string(), vec![1, 2]);
    collection.add("550".to_string(), "Other".to_string(), vec![9]);
    collection.add("440".to_string(), "Renamed".to_string(), vec![2]);
    assert_eq!(
        collection.entries(),
        vec![
            WorkshopEntry {
                app_id: "440".to_string(),
                app_name: "Team X".to_string(),
                item_ids: vec![1, 2, 2],
            },
            WorkshopEntry {
                app_id: "550".to_string(),
                app_name: "Other".to_string(),
                item_ids: vec![9],
            },
        ]
    );
}
