use eng_on_esc::autostart::{autostart_is_enabled, autostart_plist, plist_path, PLIST_LABEL};
use std::path::PathBuf;

fn joined(home: &str) -> String {
    PathBuf::from(home)
        .join("Library/LaunchAgents")
        .join(format!("{PLIST_LABEL}.plist"))
        .display()
        .to_string()
}

#[test]
fn plist_path_under_home() {
    assert_eq!(
        plist_path("/Users/kil9"),
        "/Users/kil9/Library/LaunchAgents/io.github.kil9.eng-on-esc.plist"
    );
}

#[test]
fn plist_path_matches_path_joining() {
    for home in ["/Users/kil9", "/Users/kil9/", "", "/", "relative/home", "/홈/사용자"] {
        assert_eq!(plist_path(home), joined(home), "home = {home:?}");
    }
}

#[test]
fn plist_path_with_empty_home_is_relative() {
    assert_eq!(plist_path(""), "Library/LaunchAgents/io.github.kil9.eng-on-esc.plist");
    assert_eq!(plist_path("/"), "/Library/LaunchAgents/io.github.kil9.eng-on-esc.plist");
}

#[test]
fn plist_document_is_exact() {
    let exe = "/Applications/eng-on-esc-macos";
    let expected = format!(
        "<?xml version=\"1.0\" encoding=\"UTF-8\"?>\n\
         <!DOCTYPE plist PUBLIC \"-//Apple//DTD PLIST 1.0//EN\" \
         \"http://www.apple.com/DTDs/PropertyList-1.0.dtd\">\n\
         <plist version=\"1.0\">\n\
         <dict>\n\
           <key>Label</key><string>{PLIST_LABEL}</string>\n\
           <key>ProgramArguments</key>\n\
           <array><string>{exe}</string></array>\n\
           <key>RunAtLoad</key><true/>\n\
         </dict>\n\
         </plist>\n",
        exe = exe
    );
    assert_eq!(autostart_plist(exe), expected);
}

#[test]
fn plist_document_embeds_path_as_given() {
    let doc = autostart_plist("/tmp/a b/프로그램");
    assert!(doc.contains("<array><string>/tmp/a b/프로그램</string></array>"));
    assert!(doc.contains("<key>Label</key><string>io.github.kil9.eng-on-esc</string>"));
    assert!(doc.ends_with("</plist>\n"));
}

#[test]
fn autostart_disabled_without_agent_file() {
    assert!(!autostart_is_enabled("/nonexistent/home/for/eng-on-esc"));
}
