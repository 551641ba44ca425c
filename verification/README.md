# rust-to-you

Ferris the crab investigates a public GitHub repository and writes a bilingual
(Vietnamese–English) report in nine sections: first impressions, commit crimes,
branch jungle, ancient relics, language soup, infrastructure footprints, the
repository's personality, interesting findings and the crab's conclusion.

## Layout

- `src/` — the library, verified with Verus: parsing and validating the repository
  reference, the case identifier, the size guard, the contributor and bus-factor
  statistics, the bounded commit window, branch enumeration, infrastructure and
  language detection from listings and line counts, every analysis, the report as
  styled lines and as plain text, and the scrolling state of the interactive view.
  Each public function states its result in `ensures`; the laws that relate several
  functions are public proof functions whose names start with `law_`.
- `app/` — the program around it: the command line, the GitHub API call, cloning and
  walking the repository with `git2`, listing the working tree and counting lines
  with `tokei`, the temp-directory hygiene, and drawing the report with `ratatui`.
- `tests/` — the test suite, run against the library.

Percentages are carried as exact shares (`part` of `whole`): thresholds compare
them in whole percents, and the report shows them with one decimal, a tie going
to the even digit.
