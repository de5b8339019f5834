use portwatch::monitor::file::{holder_for, FileMonitor, ProcessInfo, Solution};

fn solution(action: &str, description: &str, risk: &str, command: Option<&str>) -> Solution {
    Solution {
        action: action.to_string(),
        description: description.to_string(),
        risk_level: risk.to_string(),
        command: command.map(|c| c.to_string()),
    }
}

fn holder(pid: u32, name: &str, friendly: &str) -> ProcessInfo {
    ProcessInfo {
        pid,
        name: name.to_string(),
        friendly_name: friendly.to_string(),
        exe_path: None,
    }
}

#[test]
fn holders_go_by_extension() {
    let pdf = holder_for("pdf").unwrap();
    assert_eq!(pdf.pid, 9999);
    assert_eq!(pdf.name, "AcroRd32.exe");
    assert_eq!(pdf.friendly_name, "Adobe Acrobat Reader");
    assert_eq!(
        pdf.exe_path.as_deref(),
        Some("C:\\Program Files (x86)\\Adobe\\Acrobat Reader DC\\Reader\\AcroRd32.exe")
    );
    for extension in ["docx", "doc"] {
        let word = holder_for(extension).unwrap();
        assert_eq!((word.pid, word.name.as_str()), (9998, "WINWORD.EXE"));
        assert_eq!(word.friendly_name, "Microsoft Word");
        assert_eq!(
            word.exe_path.as_deref(),
            Some("C:\\Program Files\\Microsoft Office\\root\\Office16\\WINWORD.EXE")
        );
    }
    for extension in ["xlsx", "xls"] {
        let excel = holder_for(extension).unwrap();
        assert_eq!((excel.pid, excel.name.as_str()), (9997, "EXCEL.EXE"));
        assert_eq!(excel.friendly_name, "Microsoft Excel");
        assert_eq!(
            excel.exe_path.as_deref(),
            Some("C:\\Program Files\\Microsoft Office\\root\\Office16\\EXCEL.EXE")
        );
    }
    for extension in ["", "txt", "PDF", "pdfx", "docm", "xl"] {
        assert_eq!(holder_for(extension), None);
    }
}

#[test]
fn no_holder_no_advice() {
    let monitor = FileMonitor::new();
    let (reason, impact, solutions) = monitor.generate_reason_and_solutions("x", &Vec::new());
    assert_eq!(reason, "未知原因");
    assert_eq!(impact, "Low");
    assert!(solutions.is_empty());
}

#[test]
fn advice_for_a_pdf_reader() {
    let monitor = FileMonitor::new();
    let holders = vec![holder(321, "AcroRd32.exe", "ignored"), holder(1, "WINWORD.EXE", "w")];
    let (reason, impact, solutions) = monitor.generate_reason_and_solutions("x", &holders);
    assert_eq!(reason, "文件正在被PDF阅读器查看，无法删除或移动");
    assert_eq!(impact, "Medium");
    assert_eq!(
        solutions,
        vec![
            solution("关闭PDF阅读器", "关闭Adobe Acrobat Reader后再进行文件操作", "低", None),
            solution(
                "强制关闭",
                "强制终止Adobe Reader进程，可能导致未保存的更改丢失",
                "中",
                Some("taskkill /F /PID 321")
            ),
        ]
    );
}

#[test]
fn advice_for_word_and_excel() {
    let monitor = FileMonitor::new();
    let (reason, impact, solutions) =
        monitor.generate_reason_and_solutions("x", &vec![holder(0, "WINWORD.EXE", "")]);
    assert_eq!(reason, "文件正在被Microsoft Word编辑，无法删除或移动");
    assert_eq!(impact, "High");
    assert_eq!(
        solutions,
        vec![
            solution("保存并关闭Word", "在Word中保存文档并关闭后再进行文件操作", "低", None),
            solution(
                "强制关闭",
                "强制终止Word进程，可能导致未保存的更改丢失",
                "高",
                Some("taskkill /F /PID 0")
            ),
        ]
    );
    let (reason, impact, solutions) =
        monitor.generate_reason_and_solutions("x", &vec![holder(u32::MAX, "EXCEL.EXE", "")]);
    assert_eq!(reason, "文件正在被Microsoft Excel编辑，无法删除或移动");
    assert_eq!(impact, "High");
    assert_eq!(
        solutions,
        vec![
            solution("保存并关闭Excel", "在Excel中保存文档并关闭后再进行文件操作", "低", None),
            solution(
                "强制关闭",
                "强制终止Excel进程，可能导致未保存的更改丢失",
                "高",
                Some("taskkill /F /PID 4294967295")
            ),
        ]
    );
}

#[test]
fn advice_for_any_other_holder() {
    let monitor = FileMonitor::new();
    let (reason, impact, solutions) =
        monitor.generate_reason_and_solutions("x", &vec![holder(4711, "vlc.exe", "VLC媒体播放器")]);
    assert_eq!(reason, "文件正在被VLC媒体播放器使用，无法删除或移动");
    assert_eq!(impact, "Medium");
    assert_eq!(
        solutions,
        vec![
            solution("关闭应用", "关闭VLC媒体播放器后再进行文件操作", "低", None),
            solution(
                "强制关闭",
                "强制终止VLC媒体播放器进程，可能导致未保存的更改丢失",
                "中",
                Some("taskkill /F /PID 4711")
            ),
        ]
    );
}

#[test]
fn occupancy_from_given_name_and_extension() {
    let monitor = FileMonitor::new();
    let found = monitor
        .occupancy_of("C:\\docs\\report.docx", Some("report.docx".to_string()), Some("docx".to_string()))
        .unwrap();
    assert_eq!(found.file_path, "C:\\docs\\report.docx");
    assert_eq!(found.file_name, "report.docx");
    assert_eq!(found.occupied_by, vec![holder_for("docx").unwrap()]);
    assert_eq!(found.reason, "文件正在被Microsoft Word编辑，无法删除或移动");
    assert_eq!(found.impact, "High");
    assert_eq!(found.solutions.len(), 2);
    assert_eq!(found.solutions[1].command.as_deref(), Some("taskkill /F /PID 9998"));
    let found = monitor.occupancy_of("x", None, Some("pdf".to_string())).unwrap();
    assert_eq!(found.file_name, "unknown");
    assert_eq!(found.solutions[1].command.as_deref(), Some("taskkill /F /PID 9999"));
    assert_eq!(monitor.occupancy_of("x", Some("x".to_string()), None), None);
    assert_eq!(monitor.occupancy_of("a.txt", Some("a.txt".to_string()), Some("txt".to_string())), None);
}

#[test]
fn occupancy_from_a_path() {
    let monitor = FileMonitor::new();
    let found = monitor.detect_file_occupancy("/home/me/sheets/budget.2024.xlsx").unwrap();
    assert_eq!(found.file_path, "/home/me/sheets/budget.2024.xlsx");
    assert_eq!(found.file_name, "budget.2024.xlsx");
    assert_eq!(found.occupied_by[0].name, "EXCEL.EXE");
    assert_eq!(found.solutions[1].command.as_deref(), Some("taskkill /F /PID 9997"));
    assert_eq!(monitor.detect_file_occupancy("/home/me/notes.txt"), None);
    assert_eq!(monitor.detect_file_occupancy("/home/me/pdf"), None);
    assert_eq!(monitor.detect_file_occupancy("/home/me/.pdf"), None);
    assert_eq!(monitor.detect_file_occupancy(""), None);
    assert_eq!(monitor.detect_file_occupancy("paper.PDF"), None);
}

#[test]
fn missing_file_has_no_occupancy() {
    let mut monitor = FileMonitor::new();
    assert_eq!(monitor.check_file_occupancy("paper.pdf", false), None);
    let found = monitor.check_file_occupancy("paper.pdf", true).unwrap();
    assert_eq!(found.file_name, "paper.pdf");
    assert_eq!(found.reason, "文件正在被PDF阅读器查看，无法删除或移动");
    assert_eq!(monitor.check_file_occupancy("paper.txt", true), None);
}
