use bolt::cli::{parse_command, start_action, CliCommand, StartAction};
use bolt::jobs::{collection_job, document_job, plan_document_job};
use bolt::md5_hasher::{generate, hashed_file_name};
use bolt::plans::{buzz_message_plan, product_image_plan, store_plan};
use bolt::paths::{join_path, source_dir_path, tmp_dir_path, upload_dir_path};
use bolt::store_images::{collect_store_images, ImageRef};
use bolt::strings::strip_quotes;
use bolt::updates::{buzz_message_update, product_image_update, store_image_update};
use bolt::versions::{collection_resizes, recreate_versions, resize_image, ResizeCommand};

fn args_of(cmd: &ResizeCommand) -> Vec<&str> {
    cmd.args.iter().map(|a| a.as_str()).collect()
}

fn image(id: &str, file: &str) -> ImageRef {
    ImageRef { id: id.to_string(), file: file.to_string() }
}

#[test]
fn strip_quotes_removes_every_quote() {
    assert_eq!(strip_quotes("\"cat.jpg\""), "cat.jpg");
    assert_eq!(strip_quotes("a\"b\"\"c"), "abc");
    assert_eq!(strip_quotes("\"\""), "");
    assert_eq!(strip_quotes(""), "");
}

#[test]
fn strip_quotes_keeps_quote_free_text() {
    assert_eq!(strip_quotes("5c1a2b3c4d5e6f7a8b9c0d1e"), "5c1a2b3c4d5e6f7a8b9c0d1e");
    assert_eq!(strip_quotes("fïlé naμe.png"), "fïlé naμe.png");
}

#[test]
fn strip_quotes_twice_is_once() {
    let once = strip_quotes("\"x\"\"y\"");
    assert_eq!(strip_quotes(&once), once);
    assert!(!once.contains('"'));
}

#[test]
fn paths_are_joined_as_the_tool_joins_them() {
    assert_eq!(join_path("/tmp/store_image-42", "a.jpg"), "/tmp/store_image-42/a.jpg");
    assert_eq!(join_path("", ""), "/");
    assert_eq!(tmp_dir_path("buzz_message", "5a1b"), "/tmp/buzz_message-5a1b");
    assert_eq!(source_dir_path("/srv/uploads", "product_image", "77"), "/srv/uploads/product_image/77");
    assert_eq!(
        upload_dir_path("store", "9"),
        "/home/nitin/work/mobmerry/public/uploads/store/9"
    );
}

#[test]
fn generated_names_are_md5_hex_with_jpg() {
    assert_eq!(generate("photo.png"), "54578611656798245210940077c32ced.jpg");
    assert_eq!(generate(""), "d41d8cd98f00b204e9800998ecf8427e.jpg");
    assert_eq!(generate("ünï.jpg"), "dc6654be6123266ccd65530769a5f44b.jpg");
    assert_eq!(generate("abc").len(), 36);
}

#[test]
fn generate_is_deterministic() {
    assert_eq!(generate("same.png"), generate("same.png"));
    assert_ne!(generate("a.png"), generate("b.png"));
}

#[test]
fn hashed_file_name_appends_jpg() {
    assert_eq!(hashed_file_name("900150983cd24fb0d6963f7d28e17f72"), "900150983cd24fb0d6963f7d28e17f72.jpg");
}

#[test]
fn resize_image_builds_gm_command() {
    let cmd = resize_image("n.jpg", "/tmp/d", "420x", "mdpi", true);
    assert_eq!(cmd.program, "gm");
    assert_eq!(cmd.current_dir, "/tmp/d");
    assert_eq!(
        args_of(&cmd),
        vec!["convert", "n.jpg", "-resize", "420x", "-auto-orient", "+profile", "!icc,!xmp,*", "mdpi_n.jpg"]
    );
    let plain = resize_image("n.jpg", "/tmp/d", "100x100", "thumb", false);
    assert_eq!(
        args_of(&plain),
        vec!["convert", "n.jpg", "-resize", "100x100", "+profile", "!icc,!xmp,*", "thumb_n.jpg"]
    );
}

#[test]
fn recreate_versions_makes_seven_upright_versions() {
    let cmds = recreate_versions("h.jpg", "/tmp/s-1");
    let expected = [
        ("100x100", "thumb"),
        ("225x", "web"),
        ("290x", "ldpi"),
        ("420x", "mdpi"),
        ("520x", "hdpi"),
        ("630x", "xhdpi"),
        ("1062x", "xxhdpi"),
    ];
    assert_eq!(cmds.len(), expected.len());
    for (cmd, (size, alias)) in cmds.iter().zip(expected.iter()) {
        let out = format!("{}_h.jpg", alias);
        assert_eq!(cmd.program, "gm");
        assert_eq!(cmd.current_dir, "/tmp/s-1");
        assert_eq!(
            args_of(cmd),
            vec!["convert", "h.jpg", "-resize", *size, "-auto-orient", "+profile", "!icc,!xmp,*", out.as_str()]
        );
    }
}

#[test]
fn collection_resizes_make_six_versions_without_orientation() {
    let cmds = collection_resizes("h.jpg", "/tmp/c-1");
    let aliases: Vec<String> = cmds.iter().map(|c| c.args.last().unwrap().clone()).collect();
    assert_eq!(
        aliases,
        vec!["thumb_h.jpg", "ldpi_h.jpg", "mdpi_h.jpg", "hdpi_h.jpg", "xhdpi_h.jpg", "xxhdpi_h.jpg"]
    );
    assert!(cmds.iter().all(|c| !c.args.iter().any(|a| a == "-auto-orient")));
    assert_eq!(cmds[5].args[3], "1062x");
}

#[test]
fn version_outputs_are_all_different_from_each_other_and_the_image() {
    let cmds = recreate_versions("x.jpg", "/tmp/t");
    let mut outs: Vec<String> = cmds.iter().map(|c| c.args.last().unwrap().clone()).collect();
    assert!(outs.iter().all(|o| o != "x.jpg"));
    outs.sort();
    outs.dedup();
    assert_eq!(outs.len(), 7);
}

#[test]
fn document_job_holds_paths_and_commands() {
    let job = document_job("/srv", "buzz_message", "abc123", "orig.png", "new.jpg");
    assert_eq!(job.tmp_dir_path, "/tmp/buzz_message-abc123");
    assert_eq!(job.source_dir_path, "/srv/buzz_message/abc123");
    assert_eq!(job.new_file_name, "new.jpg");
    assert_eq!(job.tmp_file_path, "/tmp/buzz_message-abc123/new.jpg");
    assert_eq!(job.source_file_path, "/srv/buzz_message/abc123/orig.png");
    assert_eq!(job.resize_commands.len(), 7);
    assert_eq!(job.resize_commands[1].args[7], "web_new.jpg");
}

#[test]
fn plan_document_job_renames_by_digest() {
    let job = plan_document_job("/srv", "product_image", "i1", "photo.png");
    assert_eq!(job.new_file_name, "54578611656798245210940077c32ced.jpg");
    assert_eq!(job.tmp_file_path, "/tmp/product_image-i1/54578611656798245210940077c32ced.jpg");
    assert_eq!(job.source_file_path, "/srv/product_image/i1/photo.png");
}

#[test]
fn collection_job_uses_uploads_root() {
    let job = collection_job("stores", "s9", "logo.png", "l.jpg");
    assert_eq!(job.tmp_dir_path, "/tmp/stores-s9");
    assert_eq!(job.source_dir_path, "/home/nitin/work/mobmerry/public/uploads/stores/s9");
    assert_eq!(job.source_file_path, "/home/nitin/work/mobmerry/public/uploads/stores/s9/logo.png");
    assert_eq!(job.tmp_file_path, "/tmp/stores-s9/l.jpg");
    assert_eq!(job.resize_commands.len(), 6);
}

#[test]
fn store_images_keep_one_name_per_id_the_last_one() {
    let logo = image("L", "logo.png");
    let images = vec![image("A", "a1.png"), image("B", "b.png"), image("A", "a2.png"), image("L", "logo2.png")];
    let mut got: Vec<(String, String)> =
        collect_store_images(&logo, &images).into_iter().map(|r| (r.id, r.file)).collect();
    got.sort();
    assert_eq!(
        got,
        vec![
            ("A".to_string(), "a2.png".to_string()),
            ("B".to_string(), "b.png".to_string()),
            ("L".to_string(), "logo2.png".to_string()),
        ]
    );
}

#[test]
fn store_images_with_empty_gallery_is_the_logo() {
    let got = collect_store_images(&image("L", "l.png"), &vec![]);
    assert_eq!(got.len(), 1);
    assert_eq!(got[0].id, "L");
    assert_eq!(got[0].file, "l.png");
}

#[test]
fn updates_name_the_field_to_set() {
    let b = buzz_message_update("d1", "n.jpg");
    assert_eq!((b.record_id.as_str(), b.image_id.is_none(), b.field.as_str(), b.new_file_name.as_str()), ("d1", true, "image", "n.jpg"));
    let p = product_image_update("p1", "i1", "n.jpg");
    assert_eq!(p.record_id, "p1");
    assert_eq!(p.image_id.as_deref(), Some("i1"));
    assert_eq!(p.field, "images.$.file");
    let s = store_image_update("i2", "m.jpg");
    assert_eq!((s.record_id.as_str(), s.image_id.is_none(), s.field.as_str(), s.new_file_name.as_str()), ("i2", true, "logo", "m.jpg"));
}

#[test]
fn commands_are_parsed_by_name() {
    assert_eq!(parse_command("help"), Some(CliCommand::Help));
    assert_eq!(parse_command("store_locations"), Some(CliCommand::StoreLocations));
    assert_eq!(parse_command("stores"), Some(CliCommand::Stores));
    assert_eq!(parse_command("products"), Some(CliCommand::Products));
    assert_eq!(parse_command("buzz_messages"), Some(CliCommand::BuzzMessages));
    assert_eq!(parse_command(""), None);
    assert_eq!(parse_command("store"), None);
}

#[test]
fn command_names_round_trip() {
    for c in [CliCommand::Help, CliCommand::StoreLocations, CliCommand::Stores, CliCommand::Products, CliCommand::BuzzMessages] {
        assert_eq!(parse_command(c.name()), Some(c));
    }
}

#[test]
fn command_targets() {
    let t = CliCommand::Stores.target().unwrap();
    assert_eq!((t.collection_name.as_str(), t.source_name.as_str()), ("stores", "store_image"));
    let t = CliCommand::Products.target().unwrap();
    assert_eq!((t.collection_name.as_str(), t.source_name.as_str()), ("products", "product_image"));
    let t = CliCommand::BuzzMessages.target().unwrap();
    assert_eq!((t.collection_name.as_str(), t.source_name.as_str()), ("buzz_messages", "buzz_message"));
    assert!(CliCommand::Help.target().is_none());
    assert!(CliCommand::StoreLocations.target().is_none());
}

#[test]
fn start_action_lists_first_then_runs() {
    assert_eq!(start_action(true, Some(CliCommand::Stores)), StartAction::ListCommands);
    assert_eq!(start_action(false, None), StartAction::AskForCommand);
    assert_eq!(start_action(false, Some(CliCommand::Products)), StartAction::Run(CliCommand::Products));
}

#[test]
fn command_names_ignore_case() {
    assert_eq!(parse_command("Stores"), Some(CliCommand::Stores));
    assert_eq!(parse_command("HELP"), Some(CliCommand::Help));
    assert_eq!(parse_command("Buzz_Messages"), Some(CliCommand::BuzzMessages));
    assert_eq!(parse_command("STORE_LOCATIONS"), Some(CliCommand::StoreLocations));
    assert_eq!(parse_command("Stores "), None);
    assert_eq!(parse_command("Ströres"), None);
}

#[test]
fn generated_name_starts_with_lowercase_hex() {
    let name = generate("Some Picture.JPG");
    assert!(name[..32].chars().all(|c| c.is_ascii_digit() || ('a'..='f').contains(&c)));
    assert!(name.ends_with(".jpg"));
}

#[test]
fn buzz_message_plan_sets_image() {
    let (job, update) = buzz_message_plan("/srv", "d7", "photo.png");
    assert_eq!(job.tmp_dir_path, "/tmp/buzz_message-d7");
    assert_eq!(job.source_file_path, "/srv/buzz_message/d7/photo.png");
    assert_eq!(job.new_file_name, "54578611656798245210940077c32ced.jpg");
    assert_eq!(update.record_id, "d7");
    assert!(update.image_id.is_none());
    assert_eq!(update.field, "image");
    assert_eq!(update.new_file_name, "54578611656798245210940077c32ced.jpg");
}

#[test]
fn product_image_plan_sets_image_file() {
    let (job, update) = product_image_plan("/srv", "p1", "i1", "photo.png");
    assert_eq!(job.source_dir_path, "/srv/product_image/i1");
    assert_eq!(job.tmp_dir_path, "/tmp/product_image-i1");
    assert_eq!(update.record_id, "p1");
    assert_eq!(update.image_id.as_deref(), Some("i1"));
    assert_eq!(update.field, "images.$.file");
    assert_eq!(update.new_file_name, job.new_file_name);
}

#[test]
fn store_plan_has_one_step_per_image_id() {
    let logo = image("L", "photo.png");
    let images = vec![image("A", "a1.png"), image("A", "abc"), image("B", "b.png")];
    let mut steps: Vec<(String, String, String, String)> = store_plan("/srv", &logo, &images)
        .into_iter()
        .map(|(job, update)| (update.record_id, update.field, update.new_file_name, job.source_file_path))
        .collect();
    steps.sort();
    assert_eq!(steps.len(), 3);
    assert_eq!(steps[0].0, "A");
    assert_eq!(steps[0].1, "logo");
    assert_eq!(steps[0].2, "900150983cd24fb0d6963f7d28e17f72.jpg");
    assert_eq!(steps[0].3, "/srv/store_image/A/abc");
    assert_eq!(steps[1].0, "B");
    assert_eq!(steps[2].0, "L");
    assert_eq!(steps[2].2, "54578611656798245210940077c32ced.jpg");
    assert_eq!(steps[2].3, "/srv/store_image/L/photo.png");
}
