use gitlite::patch::{render_patch, render_untracked, DiffLine, PatchStyle};

fn line(file: &str, origin: char, content: Option<&str>) -> DiffLine {
    DiffLine {
        new_path: Some(file.to_string()),
        old_path: Some(file.to_string()),
        origin,
        content: content.map(|c| c.to_string()),
    }
}

fn sample() -> Vec<DiffLine> {
    vec![
        line("a.txt", 'F', Some("diff --git a/a.txt b/a.txt\n")),
        line("a.txt", 'H', Some("@@ -1 +1 @@\n")),
        line("a.txt", '-', Some("old\n")),
        line("a.txt", '+', Some("new\n")),
        line("b.txt", ' ', Some("same\n")),
        line("b.txt", '+', None),
    ]
}

#[test]
fn whole_patch_keeps_every_line() {
    assert_eq!(
        render_patch(&sample(), None, PatchStyle::Plain),
        "diff --git a/a.txt b/a.txt\n\n@@ -1 +1 @@\n\nold\n\nnew\n\nsame\n\n\n"
    );
}

#[test]
fn patch_of_one_file_leaves_the_others_out() {
    assert_eq!(
        render_patch(&sample(), Some("b.txt"), PatchStyle::Plain),
        "same\n\n\n"
    );
    assert_eq!(render_patch(&sample(), Some("c.txt"), PatchStyle::Plain), "");
    assert_eq!(render_patch(&vec![], None, PatchStyle::Marked), "");
}

#[test]
fn marked_patch_shows_where_lines_come_from() {
    assert_eq!(
        render_patch(&sample(), Some("a.txt"), PatchStyle::Marked),
        "diff --git a/a.txt b/a.txt\n\n@@ -1 +1 @@\n\n-old\n\n+new\n\n"
    );
    assert_eq!(
        render_patch(&sample(), Some("b.txt"), PatchStyle::Marked),
        " same\n\n+[INVALID UTF-8]\n"
    );
}

#[test]
fn line_belongs_to_the_new_path_before_the_old() {
    let renamed = DiffLine {
        new_path: Some("new.txt".to_string()),
        old_path: Some("old.txt".to_string()),
        origin: '+',
        content: Some("x".to_string()),
    };
    let deleted = DiffLine {
        new_path: None,
        old_path: Some("old.txt".to_string()),
        origin: '-',
        content: Some("y".to_string()),
    };
    let nameless =
        DiffLine { new_path: None, old_path: None, origin: ' ', content: Some("z".to_string()) };
    let lines = vec![renamed, deleted, nameless];
    assert_eq!(render_patch(&lines, Some("new.txt"), PatchStyle::Marked), "+x\n");
    assert_eq!(render_patch(&lines, Some("old.txt"), PatchStyle::Marked), "-y\n");
    assert_eq!(render_patch(&lines, Some(""), PatchStyle::Marked), " z\n");
}

#[test]
fn untracked_file_is_shown_as_added_line_by_line() {
    assert_eq!(
        render_untracked("docs/n.txt", "first\nsecond\r\n\nlast"),
        "diff --git a/docs/n.txt b/docs/n.txt\n\
         new file mode 100644\n\
         index 0000000..0000000\n\
         --- /dev/null\n\
         +++ b/docs/n.txt\n\
         @@ -0,0 +1,1 @@\n\
         +first\n\
         @@ -0,0 +2,1 @@\n\
         +second\n\
         @@ -0,0 +3,1 @@\n\
         +\n\
         @@ -0,0 +4,1 @@\n\
         +last\n"
    );
}

#[test]
fn empty_untracked_file_has_a_head_only() {
    assert_eq!(
        render_untracked("e", ""),
        "diff --git a/e b/e\nnew file mode 100644\nindex 0000000..0000000\n--- /dev/null\n+++ b/e\n"
    );
}

#[test]
fn line_numbers_go_past_nine() {
    let content = "x\n".repeat(11);
    let text = render_untracked("f", &content);
    assert!(text.contains("@@ -0,0 +9,1 @@\n+x\n@@ -0,0 +10,1 @@\n+x\n@@ -0,0 +11,1 @@\n+x\n"));
    assert!(!text.contains("+12,1"));
}
