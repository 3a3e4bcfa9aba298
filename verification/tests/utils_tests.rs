use mirante::position::ContentPosition;
use mirante::selection::Selection;
use mirante::text::VecStringExt;

#[test]
fn remove_text_test() {
    let yaml = r"apiVersion: v1
kind: Pod
metadata:
  creationTimestamp: 2025-08-27T19:31:08Z
  generateName: coredns-6799fbcd5-
  labels:
    k8s-app: kube-dns
    pod-template-hash: 6799fbcd5
  name: coredns-6799fbcd5-pt4xz
  namespace: kube-system";

    let mut lines = yaml.split('\n').map(String::from).collect::<Vec<_>>();
    let removed = lines.remove_text(&Selection {
        start: ContentPosition::new(8, 3),
        end: ContentPosition::new(5, 5),
    });

    assert_eq!(
        r"apiVersion: v1
kind: Pod
metadata:
  creatils:
    k8s-app: kube-dns
    pod-template-hash: 6799fbcd5
  name: coredns-6799fbcd5-pt4xz
  namespace: kube-system",
        lines.join("\n")
    );

    assert_eq!(
        r"onTimestamp: 2025-08-27T19:31:08Z
  generateName: coredns-6799fbcd5-
  labe",
        removed.join("\n")
    );
}

#[test]
fn remove_text_one_line_test() {
    let mut text = vec!["Some Test_Line".to_owned()];

    let removed = text.remove_text(&Selection {
        start: ContentPosition::new(6, 0),
        end: ContentPosition::new(8, 0),
    });

    assert_eq!("Some T_Line", text[0]);
    assert_eq!("est", removed[0]);
}

#[test]
fn remove_text_line_start_test() {
    let yaml = r"apiVersion: v1
kind: Pod
metadata:
  creationTimestamp: 2025-08-27T19:31:08Z
  generateName: coredns-6799fbcd5-";

    let mut lines = yaml.split('\n').map(String::from).collect::<Vec<_>>();
    let removed = lines.remove_text(&Selection {
        start: ContentPosition::new(9, 1),
        end: ContentPosition::new(9, 2),
    });

    assert_eq!(
        r"apiVersion: v1
kind: Pod  creationTimestamp: 2025-08-27T19:31:08Z
  generateName: coredns-6799fbcd5-",
        lines.join("\n")
    );

    assert_eq!("\nmetadata:\n", removed.join("\n"));
}

#[test]
fn remove_text_line_end_test() {
    let mut text = vec!["first line".to_owned(), "second line".to_owned()];

    let removed = text.remove_text(&Selection {
        start: ContentPosition::new(10, 0),
        end: ContentPosition::new(10, 0),
    });

    assert_eq!("first linesecond line", text[0]);
    assert_eq!("", removed[0]);
    assert_eq!("", removed[1]);
}

#[test]
fn insert_text_test() {
    let yaml = r"apiVersion: v1
kind: Pod
metadata:
  creationTimestamp: 2025-08-27T19:31:08Z
  generateName: coredns-6799fbcd5-";

    let to_insert = r"_lines
to insert
into the yaml_";

    let text = to_insert.split('\n').map(String::from).collect::<Vec<_>>();
    let mut actual = yaml.split('\n').map(String::from).collect::<Vec<_>>();
    actual.insert_text(ContentPosition::new(5, 3), text);

    let expected = r"apiVersion: v1
kind: Pod
metadata:
  cre_lines
to insert
into the yaml_ationTimestamp: 2025-08-27T19:31:08Z
  generateName: coredns-6799fbcd5-";

    assert_eq!(expected, actual.join("\n"));
}

#[test]
fn insert_unicode_test() {
    let mut actual = vec!["metadata:".to_owned()];

    let pos = actual.insert_text(ContentPosition::new(3, 0), vec!["ąęśćńółź".to_owned()]);
    assert_eq!("metąęśćńółźadata:", actual.join("\n"));
    assert_eq!(ContentPosition::new(11, 0), pos);

    let pos = actual.insert_text(ContentPosition::new(11, 0), vec!["ąęśćńółź".to_owned()]);
    assert_eq!("metąęśćńółźąęśćńółźadata:", actual.join("\n"));
    assert_eq!(ContentPosition::new(19, 0), pos);
}

#[test]
fn insert_text_line_end_test() {
    let yaml = r"apiVersion: v1
kind: Pod
metadata:
  creationTimestamp: 2025-08-27T19:31:08Z
  generateName: coredns-6799fbcd5-";

    let to_insert = r"_lines
to insert
into the yaml_";

    let text = to_insert.split('\n').map(String::from).collect::<Vec<_>>();
    let mut actual = yaml.split('\n').map(String::from).collect::<Vec<_>>();
    actual.insert_text(ContentPosition::new(9, 1), text);

    let expected = r"apiVersion: v1
kind: Pod_lines
to insert
into the yaml_
metadata:
  creationTimestamp: 2025-08-27T19:31:08Z
  generateName: coredns-6799fbcd5-";

    assert_eq!(expected, actual.join("\n"));
}

#[test]
fn insert_line_line_end_test() {
    let yaml = r"apiVersion: v1
kind: Pod
metadata:
  creationTimestamp: 2025-08-27T19:31:08Z
  generateName: coredns-6799fbcd5-";

    let text = vec!["_one_line_".to_owned()];
    let mut actual = yaml.split('\n').map(String::from).collect::<Vec<_>>();
    actual.insert_text(ContentPosition::new(9, 1), text);

    let expected = r"apiVersion: v1
kind: Pod_one_line_
metadata:
  creationTimestamp: 2025-08-27T19:31:08Z
  generateName: coredns-6799fbcd5-";

    assert_eq!(expected, actual.join("\n"));
}
